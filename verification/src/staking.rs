use vstd::prelude::*;

use crate::errors::CouponError;
use crate::registry::Coupon;

verus! {

/// The base unit of value a staked coupon's token is booked at.
pub const STAKE_BASE_VALUE: u64 = 1000000;

/// The singleton staking pool: custody totals and the reward policy.
/// `reward_rate_per_day` is in basis points (100 = 1% per day);
/// `min_stake_duration` is in seconds.
#[derive(Clone, Copy, Debug, PartialEq, Eq, Structural)]
pub struct StakingPool {
    pub authority: u64,
    pub total_staked: u64,
    pub total_rewards_distributed: u64,
    pub reward_rate_per_day: u64,
    pub min_stake_duration: i64,
    pub is_active: bool,
    pub created_at: i64,
}

/// One time-locked stake of one coupon's token, created on stake, mutated
/// once on claim, and inert afterwards.
#[derive(Clone, Copy, Debug, PartialEq, Eq, Structural)]
pub struct StakeAccount {
    pub user: u64,
    pub coupon: u64,
    pub nft_mint: u64,
    pub amount_staked: u64,
    pub staked_at: i64,
    pub unlock_at: i64,
    pub duration_days: u64,
    pub rewards_earned: u64,
    pub is_active: bool,
    pub claimed_at: Option<i64>,
}

impl StakeAccount {
    /// The reward accrued by time `t` at `rate` basis points per day:
    /// `amount · rate · whole elapsed days / 10000`, rounded down. A
    /// partial day accrues nothing, and nothing accrues before the stake
    /// began.
    pub open spec fn spec_rewards(self, t: int, rate: u64) -> int {
        if t < self.staked_at {
            0
        } else {
            (self.amount_staked * rate * ((t - self.staked_at) / 86400)) / 10000
        }
    }

    /// The products of the reward formula stay within machine bounds; what
    /// `calculate_rewards` needs to run without aborting.
    pub open spec fn rewards_fit(self, t: int, rate: u64) -> bool {
        t >= self.staked_at ==> {
            &&& self.amount_staked * rate <= u64::MAX
            &&& self.amount_staked * rate * ((t - self.staked_at) / 86400) <= u64::MAX
        }
    }

    pub fn calculate_rewards(&self, current_time: i64, reward_rate: u64) -> (rewards: u64)
        requires
            self.rewards_fit(current_time as int, reward_rate),
        ensures
            rewards == self.spec_rewards(current_time as int, reward_rate),
    {
        if current_time < self.staked_at {
            return 0;
        }
        let elapsed_seconds: u128 = (current_time as i128 - self.staked_at as i128) as u128;
        let elapsed_days: u64 = (elapsed_seconds / 86400) as u64;
        (self.amount_staked * reward_rate * elapsed_days) / 10000
    }

    pub open spec fn spec_can_claim(self, t: int) -> bool {
        self.is_active && t >= self.unlock_at
    }

    pub fn can_claim(&self, current_time: i64) -> (r: bool)
        ensures
            r == self.spec_can_claim(current_time as int),
    {
        self.is_active && current_time >= self.unlock_at
    }
}

/// Opens the deployment's staking pool under `authority`, with nothing
/// staked or distributed yet, the given reward policy, and the pool active.
pub fn initialize_staking(
    authority: u64,
    reward_rate_per_day: u64,
    min_stake_duration: i64,
    now: i64,
) -> (pool: StakingPool)
    ensures
        pool == (StakingPool {
            authority,
            total_staked: 0,
            total_rewards_distributed: 0,
            reward_rate_per_day,
            min_stake_duration,
            is_active: true,
            created_at: now,
        }),
{
    StakingPool {
        authority,
        total_staked: 0,
        total_rewards_distributed: 0,
        reward_rate_per_day,
        min_stake_duration,
        is_active: true,
        created_at: now,
    }
}

/// The validation cascade of `stake_coupon`, in the order the checks run;
/// `None` means the stake is opened.
pub open spec fn stake_check(
    pool: StakingPool,
    coupon: Coupon,
    nft_mint: u64,
    user: u64,
    duration_days: u64,
) -> Option<CouponError> {
    if coupon.owner != user {
        Some(CouponError::NotCouponOwner)
    } else if coupon.is_redeemed {
        Some(CouponError::CouponAlreadyRedeemed)
    } else if coupon.mint != Some(nft_mint) {
        Some(CouponError::WrongCoupon)
    } else if !pool.is_active {
        Some(CouponError::PromotionInactive)
    } else if duration_days == 0 {
        Some(CouponError::InvalidInput)
    } else if duration_days * 86400 < pool.min_stake_duration {
        Some(CouponError::InvalidExpiry)
    } else {
        None
    }
}

/// `user` stakes the token backing their coupon (the record behind
/// `coupon_key`, minted as `nft_mint`) for `duration_days`. The host moves
/// the token into the pool's vault; this opens the stake record at the base
/// unit value, locked from `now` until the duration has passed, and adds
/// that value to the pool's custody total. Valid only while the pool is
/// active, for the coupon's unredeemed owner, and for a positive duration
/// no shorter than the pool's minimum. A rejected stake changes nothing.
pub fn stake_coupon(
    pool: &mut StakingPool,
    coupon: &Coupon,
    coupon_key: u64,
    nft_mint: u64,
    user: u64,
    duration_days: u64,
    now: i64,
) -> (r: Result<StakeAccount, CouponError>)
    requires
        duration_days * 86400 <= i64::MAX,
        now + duration_days * 86400 <= i64::MAX,
        old(pool).total_staked + STAKE_BASE_VALUE <= u64::MAX,
    ensures
        stake_check(*old(pool), *coupon, nft_mint, user, duration_days) matches Some(e) ==> r
            == Err::<StakeAccount, CouponError>(e) && *final(pool) == *old(pool),
        stake_check(*old(pool), *coupon, nft_mint, user, duration_days) is None ==> {
            &&& r == Ok::<StakeAccount, CouponError>(
                StakeAccount {
                    user,
                    coupon: coupon_key,
                    nft_mint,
                    amount_staked: STAKE_BASE_VALUE,
                    staked_at: now,
                    unlock_at: (now + duration_days * 86400) as i64,
                    duration_days,
                    rewards_earned: 0,
                    is_active: true,
                    claimed_at: None,
                },
            )
            &&& *final(pool) == (StakingPool {
                total_staked: (old(pool).total_staked + STAKE_BASE_VALUE) as u64,
                ..*old(pool)
            })
        },
        r is Ok <==> stake_check(*old(pool), *coupon, nft_mint, user, duration_days) is None,
{
    if coupon.owner != user {
        return Err(CouponError::NotCouponOwner);
    }
    if coupon.is_redeemed {
        return Err(CouponError::CouponAlreadyRedeemed);
    }
    let mint_matches: bool = match coupon.mint {
        Some(m) => m == nft_mint,
        None => false,
    };
    if !mint_matches {
        return Err(CouponError::WrongCoupon);
    }
    if !pool.is_active {
        return Err(CouponError::PromotionInactive);
    }
    if duration_days == 0 {
        return Err(CouponError::InvalidInput);
    }
    let duration_seconds: i64 = (duration_days * 86400) as i64;
    if duration_seconds < pool.min_stake_duration {
        return Err(CouponError::InvalidExpiry);
    }
    let stake_account = StakeAccount {
        user,
        coupon: coupon_key,
        nft_mint,
        amount_staked: STAKE_BASE_VALUE,
        staked_at: now,
        unlock_at: now + duration_seconds,
        duration_days,
        rewards_earned: 0,
        is_active: true,
        claimed_at: None,
    };
    pool.total_staked = pool.total_staked + STAKE_BASE_VALUE;
    Ok(stake_account)
}

/// The validation cascade of `claim_rewards`, in the order the checks run;
/// `None` means the claim pays out.
pub open spec fn claim_check(
    pool: StakingPool,
    stake: StakeAccount,
    user: u64,
    now: int,
) -> Option<CouponError> {
    if stake.user != user {
        Some(CouponError::NotCouponOwner)
    } else if !stake.is_active {
        Some(CouponError::PromotionInactive)
    } else if !stake.spec_can_claim(now) {
        Some(CouponError::InvalidExpiry)
    } else if stake.spec_rewards(now, pool.reward_rate_per_day) == 0 {
        Some(CouponError::InvalidPrice)
    } else {
        None
    }
}

/// `user` closes their matured stake: the host returns the staked token
/// from the vault and pays the reward accrued by `now` at the pool's rate
/// out of the reward source; the returned amount is that reward. The stake
/// is recorded as claimed and inert, the pool's custody total falls by the
/// staked amount, and its distributed total grows by the reward. Valid only
/// for the stake's own active record, at or after its unlock time, and
/// only when a positive reward has accrued. A rejected claim changes
/// nothing.
pub fn claim_rewards(pool: &mut StakingPool, stake: &mut StakeAccount, user: u64, now: i64) -> (r:
    Result<u64, CouponError>)
    requires
        old(stake).rewards_fit(now as int, old(pool).reward_rate_per_day),
        old(stake).spec_can_claim(now as int) ==> {
            &&& old(pool).total_staked >= old(stake).amount_staked
            &&& old(pool).total_rewards_distributed + old(stake).spec_rewards(
                now as int,
                old(pool).reward_rate_per_day,
            ) <= u64::MAX
        },
    ensures
        claim_check(*old(pool), *old(stake), user, now as int) matches Some(e) ==> r == Err::<
            u64,
            CouponError,
        >(e) && *final(pool) == *old(pool) && *final(stake) == *old(stake),
        claim_check(*old(pool), *old(stake), user, now as int) is None ==> {
            let rewards = old(stake).spec_rewards(now as int, old(pool).reward_rate_per_day);
            &&& r == Ok::<u64, CouponError>(rewards as u64)
            &&& *final(stake) == (StakeAccount {
                rewards_earned: rewards as u64,
                is_active: false,
                claimed_at: Some(now),
                ..*old(stake)
            })
            &&& *final(pool) == (StakingPool {
                total_staked: (old(pool).total_staked - old(stake).amount_staked) as u64,
                total_rewards_distributed: (old(pool).total_rewards_distributed + rewards) as u64,
                ..*old(pool)
            })
        },
        r is Ok <==> claim_check(*old(pool), *old(stake), user, now as int) is None,
{
    if stake.user != user {
        return Err(CouponError::NotCouponOwner);
    }
    if !stake.is_active {
        return Err(CouponError::PromotionInactive);
    }
    if !stake.can_claim(now) {
        return Err(CouponError::InvalidExpiry);
    }
    let rewards: u64 = stake.calculate_rewards(now, pool.reward_rate_per_day);
    if rewards == 0 {
        return Err(CouponError::InvalidPrice);
    }
    stake.rewards_earned = rewards;
    stake.is_active = false;
    stake.claimed_at = Some(now);
    pool.total_staked = pool.total_staked - stake.amount_staked;
    pool.total_rewards_distributed = pool.total_rewards_distributed + rewards;
    Ok(rewards)
}

} // verus!
