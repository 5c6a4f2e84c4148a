use vstd::prelude::*;

use crate::errors::CouponError;
use crate::fees::{spec_fee_amount, split_fee, BPS_DENOMINATOR};
use crate::registry::Coupon;

verus! {

/// The three auction mechanics: rising bids, a falling posted price, and
/// blind bids held until the close.
#[derive(Clone, Copy, Debug, PartialEq, Eq, Structural)]
pub enum AuctionType {
    English,
    Dutch,
    SealedBid,
}

/// One auction over a single coupon. `coupon`, `seller` and
/// `highest_bidder` are host account identities; times are unix seconds
/// supplied by the host clock; prices are lamports.
#[derive(Clone, Copy, Debug, PartialEq, Eq, Structural)]
pub struct CouponAuction {
    pub coupon: u64,
    pub seller: u64,
    pub auction_type: AuctionType,
    pub start_time: i64,
    pub end_time: i64,
    pub starting_price: u64,
    pub reserve_price: u64,
    pub current_bid: u64,
    pub highest_bidder: Option<u64>,
    pub bid_count: u32,
    pub is_active: bool,
    pub is_finalized: bool,
    pub auto_extend: bool,
    pub extension_seconds: i64,
    pub min_bid_increment: u64,
}

/// One immutable record per accepted bid, keyed by
/// (auction, bidder, sequence number) so a repeat bid by the same party
/// creates a new record rather than overwriting the old one.
#[derive(Clone, Copy, Debug, PartialEq, Eq, Structural)]
pub struct Bid {
    pub auction: u64,
    pub bidder: u64,
    pub amount: u64,
    pub timestamp: i64,
    pub is_winning: bool,
    pub is_refunded: bool,
}

/// A refund the host ledger owes out of the auction's escrow to an outbid
/// (or losing) party.
#[derive(Clone, Copy, Debug, PartialEq, Eq, Structural)]
pub struct BidRefund {
    pub bidder: u64,
    pub amount: u64,
}

/// What an accepted bid produces: the new bid record, and the refund of the
/// previously escrowed highest bid, if there was one.
#[derive(Clone, Copy, Debug, PartialEq, Eq)]
pub struct BidOutcome {
    pub bid: Bid,
    pub refund: Option<BidRefund>,
}

/// How a finalized auction settles: either the reserve was not met and the
/// highest escrowed bid (if any) is returned, or the coupon is sold and the
/// escrowed winning bid is split between seller and marketplace.
#[derive(Clone, Copy, Debug, PartialEq, Eq)]
pub enum FinalizeOutcome {
    ReserveNotMet { refund: Option<BidRefund> },
    Sold { winner: u64, seller_amount: u64, marketplace_fee: u64 },
}

/// What a falling-price buy-now settles to: the interpolated price at the
/// time of purchase and its split between seller and marketplace.
#[derive(Clone, Copy, Debug, PartialEq, Eq, Structural)]
pub struct DutchSale {
    pub price: u64,
    pub seller_amount: u64,
    pub marketplace_fee: u64,
}

impl CouponAuction {
    /// Well-formedness every auction built by `create_auction` has and every
    /// later operation preserves.
    pub open spec fn wf(self) -> bool {
        &&& self.start_time <= self.end_time
        &&& self.starting_price > 0
        &&& self.reserve_price > 0
        &&& 0 <= self.extension_seconds
        &&& match self.auction_type {
            AuctionType::English => self.reserve_price <= self.starting_price,
            AuctionType::Dutch => self.reserve_price < self.starting_price,
            AuctionType::SealedBid => self.min_bid_increment > 0,
        }
    }

    pub open spec fn spec_is_expired(self, t: int) -> bool {
        t > self.end_time
    }

    pub fn is_expired(&self, current_time: i64) -> (r: bool)
        ensures
            r == self.spec_is_expired(current_time as int),
    {
        current_time > self.end_time
    }

    pub open spec fn spec_can_finalize(self, t: int) -> bool {
        self.is_active && !self.is_finalized && t >= self.end_time
    }

    pub fn can_finalize(&self, current_time: i64) -> (r: bool)
        ensures
            r == self.spec_can_finalize(current_time as int),
    {
        self.is_active && !self.is_finalized && current_time >= self.end_time
    }

    /// Whether an accepted bid arriving at time `t` pushes the close out:
    /// auto-extension is on, less than five minutes remain, and the auction
    /// has already seen a bid.
    pub open spec fn spec_should_extend(self, t: int) -> bool {
        &&& self.auto_extend
        &&& self.end_time - t < 300
        &&& self.bid_count > 0
    }

    pub fn should_extend(&self, current_time: i64) -> (r: bool)
        ensures
            r == self.spec_should_extend(current_time as int),
    {
        let time_left: i128 = self.end_time as i128 - current_time as i128;
        self.auto_extend && time_left < 300 && self.bid_count > 0
    }

    /// The falling price of a Dutch auction: the starting price before the
    /// window, the reserve price after it, and in between a linear
    /// interpolation rounded down to whole lamports.
    pub open spec fn spec_dutch_price(self, t: int) -> int {
        if t <= self.start_time {
            self.starting_price as int
        } else if t >= self.end_time {
            self.reserve_price as int
        } else {
            self.starting_price - (self.starting_price - self.reserve_price) * (t
                - self.start_time) / (self.end_time - self.start_time)
        }
    }

    pub fn calculate_dutch_price(&self, current_time: i64) -> (price: u64)
        requires
            self.reserve_price <= self.starting_price,
        ensures
            price == self.spec_dutch_price(current_time as int),
            self.reserve_price <= price <= self.starting_price,
    {
        if current_time <= self.start_time {
            return self.starting_price;
        }
        if current_time >= self.end_time {
            return self.reserve_price;
        }
        let elapsed: u128 = (current_time as i128 - self.start_time as i128) as u128;
        let duration: u128 = (self.end_time as i128 - self.start_time as i128) as u128;
        let price_drop: u64 = self.starting_price - self.reserve_price;
        proof {
            vstd::arithmetic::mul::lemma_mul_upper_bound(
                price_drop as int,
                u64::MAX as int,
                elapsed as int,
                u64::MAX as int,
            );
        }
        let current_drop_wide: u128 = (price_drop as u128 * elapsed) / duration;
        proof {
            lemma_scaled_drop_bounded(
                price_drop as int,
                current_time - self.start_time,
                self.end_time - self.start_time,
            );
        }
        let current_drop: u64 = current_drop_wide as u64;
        self.starting_price - current_drop
    }
}

/// The part a scaled price drop takes of the whole drop is between zero and
/// the whole drop, when no more of the window has elapsed than its length.
proof fn lemma_scaled_drop_bounded(drop: int, elapsed: int, duration: int)
    requires
        0 <= drop,
        0 <= elapsed <= duration,
        0 < duration,
    ensures
        0 <= drop * elapsed / duration <= drop,
{
    vstd::arithmetic::mul::lemma_mul_nonnegative(drop, elapsed);
    vstd::arithmetic::div_mod::lemma_div_pos_is_pos(drop * elapsed, duration);
    vstd::arithmetic::mul::lemma_mul_inequality(elapsed, duration, drop);
    vstd::arithmetic::div_mod::lemma_multiply_divide_le(drop * elapsed, duration, drop);
}

/// The validation cascade of `create_auction`, in the order the checks run;
/// `None` means the auction is created.
pub open spec fn create_auction_check(
    coupon: Coupon,
    seller: u64,
    auction_type: AuctionType,
    starting_price: u64,
    reserve_price: u64,
    duration_seconds: i64,
    min_bid_increment: u64,
    now: int,
) -> Option<CouponError> {
    if coupon.owner != seller {
        Some(CouponError::NotCouponOwner)
    } else if coupon.is_redeemed {
        Some(CouponError::CouponAlreadyRedeemed)
    } else if coupon.expiry_timestamp <= now {
        Some(CouponError::CouponExpired)
    } else if starting_price == 0 {
        Some(CouponError::InvalidPrice)
    } else if reserve_price == 0 {
        Some(CouponError::InvalidPrice)
    } else if duration_seconds < 300 {
        Some(CouponError::InvalidExpiry)
    } else if duration_seconds > 604800 {
        Some(CouponError::InvalidExpiry)
    } else if auction_type is English && reserve_price > starting_price {
        Some(CouponError::InvalidPrice)
    } else if auction_type is Dutch && reserve_price >= starting_price {
        Some(CouponError::InvalidPrice)
    } else if auction_type is SealedBid && min_bid_increment == 0 {
        Some(CouponError::InvalidPrice)
    } else {
        None
    }
}

/// Opens an auction over `coupon` (the record behind key `coupon_key`) on
/// behalf of `seller`. The seller must own the coupon, which must be neither
/// redeemed nor expired; prices must be positive, the duration between five
/// minutes and seven days, and the price relation must fit the auction kind.
/// A new auction runs from `now` for `duration_seconds`, is active, holds no
/// bids, and for an English auction opens with `current_bid` at the starting
/// price.
pub fn create_auction(
    coupon: &Coupon,
    coupon_key: u64,
    seller: u64,
    auction_type: AuctionType,
    starting_price: u64,
    reserve_price: u64,
    duration_seconds: i64,
    auto_extend: bool,
    min_bid_increment: u64,
    now: i64,
) -> (r: Result<CouponAuction, CouponError>)
    requires
        300 <= duration_seconds <= 604800 ==> now + duration_seconds <= i64::MAX,
    ensures
        ({
            let check = create_auction_check(
                *coupon,
                seller,
                auction_type,
                starting_price,
                reserve_price,
                duration_seconds,
                min_bid_increment,
                now as int,
            );
            match check {
                Some(e) => r == Err::<CouponAuction, CouponError>(e),
                None => r == Ok::<CouponAuction, CouponError>(
                    CouponAuction {
                        coupon: coupon_key,
                        seller,
                        auction_type,
                        start_time: now,
                        end_time: (now + duration_seconds) as i64,
                        starting_price,
                        reserve_price,
                        current_bid: if auction_type is English {
                            starting_price
                        } else {
                            0
                        },
                        highest_bidder: None,
                        bid_count: 0,
                        is_active: true,
                        is_finalized: false,
                        auto_extend,
                        extension_seconds: 300,
                        min_bid_increment,
                    },
                ),
            }
        }),
        r matches Ok(a) ==> a.wf(),
{
    if coupon.owner != seller {
        return Err(CouponError::NotCouponOwner);
    }
    if coupon.is_redeemed {
        return Err(CouponError::CouponAlreadyRedeemed);
    }
    if coupon.expiry_timestamp <= now {
        return Err(CouponError::CouponExpired);
    }
    if starting_price == 0 {
        return Err(CouponError::InvalidPrice);
    }
    if reserve_price == 0 {
        return Err(CouponError::InvalidPrice);
    }
    if duration_seconds < 300 {
        return Err(CouponError::InvalidExpiry);
    }
    if duration_seconds > 604800 {
        return Err(CouponError::InvalidExpiry);
    }
    match auction_type {
        AuctionType::English => {
            if reserve_price > starting_price {
                return Err(CouponError::InvalidPrice);
            }
        },
        AuctionType::Dutch => {
            if reserve_price >= starting_price {
                return Err(CouponError::InvalidPrice);
            }
        },
        AuctionType::SealedBid => {
            if min_bid_increment == 0 {
                return Err(CouponError::InvalidPrice);
            }
        },
    }
    Ok(
        CouponAuction {
            coupon: coupon_key,
            seller,
            auction_type,
            start_time: now,
            end_time: now + duration_seconds,
            starting_price,
            reserve_price,
            current_bid: if auction_type == AuctionType::English {
                starting_price
            } else {
                0
            },
            highest_bidder: None,
            bid_count: 0,
            is_active: true,
            is_finalized: false,
            auto_extend,
            extension_seconds: 300,
            min_bid_increment,
        },
    )
}

/// The validation cascade of `place_bid`, in the order the checks run;
/// `None` means the bid is accepted.
pub open spec fn place_bid_check(a: CouponAuction, bid_amount: u64, now: int) -> Option<
    CouponError,
> {
    if !a.is_active {
        Some(CouponError::ListingInactive)
    } else if a.auction_type is Dutch {
        Some(CouponError::InvalidInput)
    } else if now >= a.end_time {
        Some(CouponError::CouponExpired)
    } else if a.auction_type is English && bid_amount < a.current_bid + a.min_bid_increment {
        Some(CouponError::InvalidPrice)
    } else if a.auction_type is SealedBid && bid_amount < a.starting_price {
        Some(CouponError::InvalidPrice)
    } else {
        None
    }
}

/// The refund owed when a new highest bid replaces an escrowed one: the old
/// highest bidder gets the old highest bid back. Nothing is owed when no
/// bidder is on record or nothing was escrowed.
pub open spec fn pending_refund(a: CouponAuction) -> Option<BidRefund> {
    match a.highest_bidder {
        Some(prev) => if a.current_bid > 0 {
            Some(BidRefund { bidder: prev, amount: a.current_bid })
        } else {
            None
        },
        None => None,
    }
}

/// The refund an accepted bid triggers: only English auctions replace and
/// refund the previous highest bid; sealed bids all stay in escrow.
pub open spec fn place_bid_refund(a: CouponAuction) -> Option<BidRefund> {
    if a.auction_type is English {
        pending_refund(a)
    } else {
        None
    }
}

/// The auction state after an accepted bid: for an English auction the bid
/// becomes the current highest; the bid count rises by one; and if the bid
/// lands in the closing window of an auto-extending auction, the close moves
/// out by the extension.
pub open spec fn place_bid_next(a: CouponAuction, bidder: u64, bid_amount: u64, now: int) -> CouponAuction {
    let bid_applied = if a.auction_type is English {
        CouponAuction { current_bid: bid_amount, highest_bidder: Some(bidder), ..a }
    } else {
        a
    };
    let counted = CouponAuction { bid_count: (bid_applied.bid_count + 1) as u32, ..bid_applied };
    if counted.spec_should_extend(now) {
        CouponAuction { end_time: (counted.end_time + counted.extension_seconds) as i64, ..counted }
    } else {
        counted
    }
}

/// The step an English auction takes on each accepted bid: the bid clears
/// the previous highest bid plus the minimum increment, and becomes the new
/// highest bid.
pub open spec fn english_bid_accepted(pre: CouponAuction, bid_amount: u64, post: CouponAuction) -> bool {
    &&& pre.auction_type is English
    &&& bid_amount >= pre.current_bid + pre.min_bid_increment
    &&& post.current_bid == bid_amount
}

/// Places `bid_amount` on `auction` (the record behind `auction_key`) for
/// `bidder`, who has escrowed that amount with the host. Valid only while
/// the auction is active, strictly before its end time, and of a kind that
/// takes bids: an English
/// bid must clear the current bid by the minimum increment and displaces
/// (and refunds) the previous highest bid; a sealed bid must clear the
/// starting price and is held blind. Every accepted bid yields an immutable
/// bid record and raises the bid count; a rejected bid changes nothing.
pub fn place_bid(
    auction: &mut CouponAuction,
    auction_key: u64,
    bidder: u64,
    bid_amount: u64,
    now: i64,
) -> (r: Result<BidOutcome, CouponError>)
    requires
        old(auction).bid_count < u32::MAX,
        old(auction).current_bid + old(auction).min_bid_increment <= u64::MAX,
        i64::MIN <= old(auction).end_time + old(auction).extension_seconds <= i64::MAX,
    ensures
        place_bid_check(*old(auction), bid_amount, now as int) matches Some(e) ==> r == Err::<
            BidOutcome,
            CouponError,
        >(e) && *final(auction) == *old(auction),
        place_bid_check(*old(auction), bid_amount, now as int) is None ==> {
            &&& r matches Ok(out)
            &&& out.bid == (Bid {
                auction: auction_key,
                bidder,
                amount: bid_amount,
                timestamp: now,
                is_winning: old(auction).auction_type is English,
                is_refunded: false,
            })
            &&& out.refund == place_bid_refund(*old(auction))
            &&& *final(auction) == place_bid_next(*old(auction), bidder, bid_amount, now as int)
        },
        r is Ok <==> place_bid_check(*old(auction), bid_amount, now as int) is None,
        old(auction).wf() ==> final(auction).wf(),
        r is Ok && old(auction).auction_type is English ==> english_bid_accepted(
            *old(auction),
            bid_amount,
            *final(auction),
        ) && final(auction).current_bid >= old(auction).current_bid,
{
    if !auction.is_active {
        return Err(CouponError::ListingInactive);
    }
    if auction.auction_type == AuctionType::Dutch {
        return Err(CouponError::InvalidInput);
    }
    if now >= auction.end_time {
        return Err(CouponError::CouponExpired);
    }
    match auction.auction_type {
        AuctionType::English => {
            let min_bid: u64 = auction.current_bid + auction.min_bid_increment;
            if bid_amount < min_bid {
                return Err(CouponError::InvalidPrice);
            }
        },
        AuctionType::SealedBid => {
            if bid_amount < auction.starting_price {
                return Err(CouponError::InvalidPrice);
            }
        },
        AuctionType::Dutch => {
            return Err(CouponError::InvalidInput);
        },
    }
    let mut refund: Option<BidRefund> = None;
    if auction.auction_type == AuctionType::English {
        if let Some(prev) = auction.highest_bidder {
            if auction.current_bid > 0 {
                refund = Some(BidRefund { bidder: prev, amount: auction.current_bid });
            }
        }
        auction.current_bid = bid_amount;
        auction.highest_bidder = Some(bidder);
    }
    let bid = Bid {
        auction: auction_key,
        bidder,
        amount: bid_amount,
        timestamp: now,
        is_winning: auction.auction_type == AuctionType::English,
        is_refunded: false,
    };
    auction.bid_count = auction.bid_count + 1;
    if auction.should_extend(now) {
        auction.end_time = auction.end_time + auction.extension_seconds;
    }
    Ok(BidOutcome { bid, refund })
}

/// The validation cascade of `buy_dutch_auction`, in the order the checks
/// run; `None` means the purchase settles.
pub open spec fn buy_dutch_check(a: CouponAuction, coupon_key: u64, now: int) -> Option<
    CouponError,
> {
    if !a.is_active {
        Some(CouponError::ListingInactive)
    } else if !(a.auction_type is Dutch) {
        Some(CouponError::InvalidInput)
    } else if coupon_key != a.coupon {
        Some(CouponError::WrongCoupon)
    } else if a.spec_is_expired(now) {
        Some(CouponError::CouponExpired)
    } else {
        None
    }
}

/// Buy-now on a falling-price auction: `buyer` pays the interpolated price
/// at `now`, split between the seller and the marketplace by `fee_bps`; the
/// coupon's ownership moves to the buyer and the auction closes finalized
/// with the sale price as its final bid. Valid only for an active, unexpired
/// Dutch auction over the given coupon; a rejected purchase changes nothing.
pub fn buy_dutch_auction(
    auction: &mut CouponAuction,
    coupon: &mut Coupon,
    coupon_key: u64,
    buyer: u64,
    fee_bps: u16,
    now: i64,
) -> (r: Result<DutchSale, CouponError>)
    requires
        fee_bps <= BPS_DENOMINATOR,
        old(auction).auction_type is Dutch
            ==> old(auction).reserve_price <= old(auction).starting_price,
    ensures
        buy_dutch_check(*old(auction), coupon_key, now as int) matches Some(e) ==> r == Err::<
            DutchSale,
            CouponError,
        >(e) && *final(auction) == *old(auction) && *final(coupon) == *old(coupon),
        buy_dutch_check(*old(auction), coupon_key, now as int) is None ==> {
            let price = old(auction).spec_dutch_price(now as int);
            let fee = spec_fee_amount(price as u64, fee_bps);
            &&& r == Ok::<DutchSale, CouponError>(
                DutchSale {
                    price: price as u64,
                    seller_amount: (price - fee) as u64,
                    marketplace_fee: fee as u64,
                },
            )
            &&& (price - fee) + fee == price
            &&& *final(auction) == (CouponAuction {
                is_active: false,
                is_finalized: true,
                current_bid: price as u64,
                highest_bidder: Some(buyer),
                ..*old(auction)
            })
            &&& *final(coupon) == (Coupon { owner: buyer, ..*old(coupon) })
        },
        r is Ok <==> buy_dutch_check(*old(auction), coupon_key, now as int) is None,
{
    if !auction.is_active {
        return Err(CouponError::ListingInactive);
    }
    if auction.auction_type != AuctionType::Dutch {
        return Err(CouponError::InvalidInput);
    }
    if coupon_key != auction.coupon {
        return Err(CouponError::WrongCoupon);
    }
    if auction.is_expired(now) {
        return Err(CouponError::CouponExpired);
    }
    let current_price: u64 = auction.calculate_dutch_price(now);
    let (seller_amount, marketplace_fee) = split_fee(current_price, fee_bps);
    coupon.owner = buyer;
    auction.is_active = false;
    auction.is_finalized = true;
    auction.current_bid = current_price;
    auction.highest_bidder = Some(buyer);
    Ok(DutchSale { price: current_price, seller_amount, marketplace_fee })
}

/// The validation cascade of `finalize_auction`, in the order the checks
/// run; `None` means the auction settles (as a sale or as reserve-not-met).
pub open spec fn finalize_auction_check(a: CouponAuction, coupon_key: u64, now: int) -> Option<
    CouponError,
> {
    if !a.spec_can_finalize(now) {
        Some(CouponError::InvalidExpiry)
    } else if a.auction_type is Dutch {
        Some(CouponError::InvalidInput)
    } else if coupon_key != a.coupon {
        Some(CouponError::WrongCoupon)
    } else {
        None
    }
}

/// Settles an ended English or sealed-bid auction (the record behind
/// `coupon_key`'s coupon). Valid only while active, not yet finalized, and
/// from its end time on; a falling-price auction never settles this way,
/// only by its own buy-now. If the current bid is below the reserve, the escrowed
/// highest bid (if any) is refunded and the auction closes with no sale.
/// Otherwise the recorded highest bidder — who must be the `winner` the
/// caller settles against — pays their escrowed bid, split between seller
/// and marketplace by `fee_bps`, and takes ownership of the coupon. A
/// sealed-bid auction's `current_bid` never moves off zero, so with a
/// positive reserve it always closes as reserve-not-met. A rejected call
/// changes nothing.
pub fn finalize_auction(
    auction: &mut CouponAuction,
    coupon: &mut Coupon,
    coupon_key: u64,
    winner: u64,
    fee_bps: u16,
    now: i64,
) -> (r: Result<FinalizeOutcome, CouponError>)
    requires
        fee_bps <= BPS_DENOMINATOR,
    ensures
        finalize_auction_check(*old(auction), coupon_key, now as int) matches Some(e) ==> r == Err::<FinalizeOutcome, CouponError>(e)
            && *final(auction) == *old(auction) && *final(coupon) == *old(coupon),
        finalize_auction_check(*old(auction), coupon_key, now as int) is None
            && old(auction).current_bid < old(auction).reserve_price ==> {
            &&& r == Ok::<FinalizeOutcome, CouponError>(
                FinalizeOutcome::ReserveNotMet { refund: pending_refund(*old(auction)) },
            )
            &&& *final(auction) == (CouponAuction {
                is_active: false,
                is_finalized: true,
                ..*old(auction)
            })
            &&& *final(coupon) == *old(coupon)
        },
        finalize_auction_check(*old(auction), coupon_key, now as int) is None
            && old(auction).current_bid >= old(auction).reserve_price ==> {
            let bid = old(auction).current_bid;
            let fee = spec_fee_amount(bid, fee_bps);
            match old(auction).highest_bidder {
                None => r == Err::<FinalizeOutcome, CouponError>(CouponError::InvalidInput)
                    && *final(auction) == *old(auction) && *final(coupon) == *old(coupon),
                Some(w) => if winner != w {
                    r == Err::<FinalizeOutcome, CouponError>(CouponError::NotCouponOwner)
                        && *final(auction) == *old(auction) && *final(coupon) == *old(coupon)
                } else {
                    &&& r == Ok::<FinalizeOutcome, CouponError>(
                        FinalizeOutcome::Sold {
                            winner: w,
                            seller_amount: (bid - fee) as u64,
                            marketplace_fee: fee as u64,
                        },
                    )
                    &&& (bid - fee) + fee == bid
                    &&& *final(auction) == (CouponAuction {
                        is_active: false,
                        is_finalized: true,
                        ..*old(auction)
                    })
                    &&& *final(coupon) == (Coupon { owner: w, ..*old(coupon) })
                },
            }
        },
{
    if !auction.can_finalize(now) {
        return Err(CouponError::InvalidExpiry);
    }
    if auction.auction_type == AuctionType::Dutch {
        return Err(CouponError::InvalidInput);
    }
    if coupon_key != auction.coupon {
        return Err(CouponError::WrongCoupon);
    }
    if auction.current_bid < auction.reserve_price {
        let mut refund: Option<BidRefund> = None;
        if let Some(prev) = auction.highest_bidder {
            if auction.current_bid > 0 {
                refund = Some(BidRefund { bidder: prev, amount: auction.current_bid });
            }
        }
        auction.is_active = false;
        auction.is_finalized = true;
        return Ok(FinalizeOutcome::ReserveNotMet { refund });
    }
    let winner_key: u64 = match auction.highest_bidder {
        Some(w) => w,
        None => {
            return Err(CouponError::InvalidInput);
        },
    };
    if winner != winner_key {
        return Err(CouponError::NotCouponOwner);
    }
    let final_price: u64 = auction.current_bid;
    let (seller_amount, marketplace_fee) = split_fee(final_price, fee_bps);
    coupon.owner = winner_key;
    auction.is_active = false;
    auction.is_finalized = true;
    Ok(FinalizeOutcome::Sold { winner: winner_key, seller_amount, marketplace_fee })
}

/// The validation cascade of `cancel_auction`, in the order the checks run;
/// `None` means the auction may be closed and its resources returned.
pub open spec fn cancel_auction_check(a: CouponAuction, caller: u64) -> Option<CouponError> {
    if !a.is_active {
        Some(CouponError::ListingInactive)
    } else if a.bid_count != 0 {
        Some(CouponError::InvalidInput)
    } else if caller != a.seller {
        Some(CouponError::NotListingSeller)
    } else {
        None
    }
}

/// Whether the seller may cancel: only an active auction that has never
/// seen a bid, and only by its own seller. On success the host closes the
/// record and returns its resources to the seller; there is no escrow to
/// refund, because no bid exists. Once a single bid has been accepted the
/// auction can never be cancelled, only finalized.
pub fn cancel_auction(auction: &CouponAuction, caller: u64) -> (r: Result<(), CouponError>)
    ensures
        r is Ok <==> auction.is_active && auction.bid_count == 0 && caller == auction.seller,
        r matches Err(e) ==> cancel_auction_check(*auction, caller) == Some(e),
{
    if !auction.is_active {
        return Err(CouponError::ListingInactive);
    }
    if auction.bid_count != 0 {
        return Err(CouponError::InvalidInput);
    }
    if caller != auction.seller {
        return Err(CouponError::NotListingSeller);
    }
    Ok(())
}

/// The falling-price law: the posted price starts at the starting price,
/// ends at the reserve price, and never leaves that band.
pub proof fn lemma_dutch_price_at_bounds(a: CouponAuction)
    requires
        a.start_time < a.end_time,
        a.reserve_price <= a.starting_price,
    ensures
        a.spec_dutch_price(a.start_time as int) == a.starting_price,
        a.spec_dutch_price(a.end_time as int) == a.reserve_price,
        forall|t: int| a.reserve_price <= #[trigger] a.spec_dutch_price(t) <= a.starting_price,
{
    assert forall|t: int|
        a.reserve_price <= #[trigger] a.spec_dutch_price(t) <= a.starting_price by {
        if a.start_time < t < a.end_time {
            lemma_scaled_drop_bounded(
                a.starting_price - a.reserve_price,
                t - a.start_time,
                a.end_time - a.start_time,
            );
        }
    }
}

/// The falling-price law: the posted price of a Dutch auction is
/// monotonically non-increasing over time.
pub proof fn lemma_dutch_price_monotonic(a: CouponAuction, t1: int, t2: int)
    requires
        a.start_time < a.end_time,
        a.reserve_price <= a.starting_price,
        t1 <= t2,
    ensures
        a.spec_dutch_price(t1) >= a.spec_dutch_price(t2),
{
    lemma_dutch_price_at_bounds(a);
    let drop = a.starting_price - a.reserve_price;
    let dur = a.end_time - a.start_time;
    if a.start_time < t1 && t2 < a.end_time {
        let e1 = t1 - a.start_time;
        let e2 = t2 - a.start_time;
        vstd::arithmetic::mul::lemma_mul_inequality(e1, e2, drop);
        vstd::arithmetic::div_mod::lemma_div_is_ordered(e1 * drop, e2 * drop, dur);
        assert(drop * e1 == e1 * drop);
        assert(drop * e2 == e2 * drop);
    }
}

/// Each link of a chain of accepted English bids keeps the highest bid from
/// falling.
proof fn lemma_english_bid_chain_le(
    states: Seq<CouponAuction>,
    amounts: Seq<u64>,
    i: int,
    j: int,
)
    requires
        states.len() == amounts.len() + 1,
        forall|k: int|
            0 <= k < amounts.len() ==> english_bid_accepted(states[k], amounts[k], states[k + 1]),
        0 <= i <= j < states.len(),
    ensures
        states[i].current_bid <= states[j].current_bid,
    decreases j - i,
{
    if i < j {
        lemma_english_bid_chain_le(states, amounts, i, j - 1);
        assert(english_bid_accepted(states[j - 1], amounts[j - 1], states[j]));
    }
}

/// Across any run of accepted bids on an English auction the current bid is
/// monotonically non-decreasing, and each accepted bid clears the previous
/// current bid by at least the minimum increment. `states[k]` is the auction
/// before the `k`-th accepted bid of `amounts[k]`, `states[k + 1]` the
/// auction after it.
pub proof fn lemma_english_bids_monotonic(states: Seq<CouponAuction>, amounts: Seq<u64>)
    requires
        states.len() == amounts.len() + 1,
        forall|k: int|
            0 <= k < amounts.len() ==> english_bid_accepted(states[k], amounts[k], states[k + 1]),
    ensures
        forall|i: int, j: int|
            0 <= i <= j < states.len() ==> states[i].current_bid <= states[j].current_bid,
        forall|k: int|
            0 <= k < amounts.len() ==> amounts[k] >= states[k].current_bid
                + states[k].min_bid_increment,
{
    assert forall|i: int, j: int|
        0 <= i <= j < states.len() implies states[i].current_bid <= states[j].current_bid by {
        lemma_english_bid_chain_le(states, amounts, i, j);
    }
    assert forall|k: int|
        0 <= k < amounts.len() implies amounts[k] >= states[k].current_bid
        + states[k].min_bid_increment by {
        assert(english_bid_accepted(states[k], amounts[k], states[k + 1]));
    }
}

} // verus!
