use discount_platform::auctions::{
    buy_dutch_auction, cancel_auction, create_auction, finalize_auction, place_bid, AuctionType,
    BidRefund, CouponAuction, FinalizeOutcome,
};
use discount_platform::errors::CouponError;
use discount_platform::registry::Coupon;

const SELLER: u64 = 100;
const BIDDER_1: u64 = 101;
const BIDDER_2: u64 = 102;
const COUPON_KEY: u64 = 7;
const AUCTION_KEY: u64 = 8;

fn sample_coupon(owner: u64) -> Coupon {
    Coupon {
        id: 1,
        promotion: 11,
        owner,
        merchant: 21,
        discount_percentage: 10,
        expiry_timestamp: 2_000_000_000,
        is_redeemed: false,
        redeemed_at: 0,
        created_at: 0,
        metadata_uri: String::new(),
        mint: Some(77),
    }
}

fn english_auction(now: i64) -> CouponAuction {
    create_auction(
        &sample_coupon(SELLER),
        COUPON_KEY,
        SELLER,
        AuctionType::English,
        1000,
        500,
        3600,
        false,
        50,
        now,
    )
    .unwrap()
}

#[test]
fn create_english_auction_initializes_record() {
    let a = english_auction(1000);
    assert_eq!(a.coupon, COUPON_KEY);
    assert_eq!(a.seller, SELLER);
    assert_eq!(a.auction_type, AuctionType::English);
    assert_eq!(a.start_time, 1000);
    assert_eq!(a.end_time, 4600);
    assert_eq!(a.current_bid, 1000); // English opens at the starting price
    assert_eq!(a.highest_bidder, None);
    assert_eq!(a.bid_count, 0);
    assert!(a.is_active);
    assert!(!a.is_finalized);
    assert_eq!(a.extension_seconds, 300);
}

#[test]
fn create_sealed_bid_auction_opens_at_zero() {
    let a = create_auction(
        &sample_coupon(SELLER),
        COUPON_KEY,
        SELLER,
        AuctionType::SealedBid,
        1000,
        1500,
        3600,
        false,
        1,
        0,
    )
    .unwrap();
    assert_eq!(a.current_bid, 0);
}

#[test]
fn create_rejects_bad_prices() {
    let c = sample_coupon(SELLER);
    let r = create_auction(&c, COUPON_KEY, SELLER, AuctionType::English, 0, 500, 3600, false, 1, 0);
    assert_eq!(r, Err(CouponError::InvalidPrice));
    let r = create_auction(&c, COUPON_KEY, SELLER, AuctionType::English, 1000, 0, 3600, false, 1, 0);
    assert_eq!(r, Err(CouponError::InvalidPrice));
    // English: reserve must not exceed starting.
    let r =
        create_auction(&c, COUPON_KEY, SELLER, AuctionType::English, 1000, 1001, 3600, false, 1, 0);
    assert_eq!(r, Err(CouponError::InvalidPrice));
    // Dutch: reserve must be strictly below starting.
    let r =
        create_auction(&c, COUPON_KEY, SELLER, AuctionType::Dutch, 1000, 1000, 3600, false, 1, 0);
    assert_eq!(r, Err(CouponError::InvalidPrice));
    // SealedBid: needs a positive minimum increment.
    let r =
        create_auction(&c, COUPON_KEY, SELLER, AuctionType::SealedBid, 1000, 500, 3600, false, 0, 0);
    assert_eq!(r, Err(CouponError::InvalidPrice));
}

#[test]
fn create_rejects_bad_duration() {
    let c = sample_coupon(SELLER);
    let r = create_auction(&c, COUPON_KEY, SELLER, AuctionType::English, 1000, 500, 299, false, 1, 0);
    assert_eq!(r, Err(CouponError::InvalidExpiry));
    let r =
        create_auction(&c, COUPON_KEY, SELLER, AuctionType::English, 1000, 500, 604801, false, 1, 0);
    assert_eq!(r, Err(CouponError::InvalidExpiry));
}

#[test]
fn create_rejects_ineligible_coupon() {
    let c = sample_coupon(999); // someone else's coupon
    let r = create_auction(&c, COUPON_KEY, SELLER, AuctionType::English, 1000, 500, 3600, false, 1, 0);
    assert_eq!(r, Err(CouponError::NotCouponOwner));

    let mut c = sample_coupon(SELLER);
    c.is_redeemed = true;
    let r = create_auction(&c, COUPON_KEY, SELLER, AuctionType::English, 1000, 500, 3600, false, 1, 0);
    assert_eq!(r, Err(CouponError::CouponAlreadyRedeemed));

    let mut c = sample_coupon(SELLER);
    c.expiry_timestamp = 10;
    let r =
        create_auction(&c, COUPON_KEY, SELLER, AuctionType::English, 1000, 500, 3600, false, 1, 10);
    assert_eq!(r, Err(CouponError::CouponExpired));
}

#[test]
fn english_bids_ratchet_up() {
    let mut a = english_auction(1000);
    // First bid must clear starting price plus increment.
    let out = place_bid(&mut a, AUCTION_KEY, BIDDER_1, 1050, 1100).unwrap();
    assert_eq!(out.refund, None); // nothing was escrowed before the first bid
    assert_eq!(a.current_bid, 1050);
    assert_eq!(a.highest_bidder, Some(BIDDER_1));
    assert_eq!(a.bid_count, 1);
    assert_eq!(out.bid.auction, AUCTION_KEY);
    assert_eq!(out.bid.bidder, BIDDER_1);
    assert_eq!(out.bid.amount, 1050);
    assert_eq!(out.bid.timestamp, 1100);
    assert!(out.bid.is_winning);
    assert!(!out.bid.is_refunded);

    // Second bid displaces and refunds the first.
    let out = place_bid(&mut a, AUCTION_KEY, BIDDER_2, 1100, 1200).unwrap();
    assert_eq!(out.refund, Some(BidRefund { bidder: BIDDER_1, amount: 1050 }));
    assert_eq!(a.current_bid, 1100);
    assert_eq!(a.highest_bidder, Some(BIDDER_2));
    assert_eq!(a.bid_count, 2);
    assert!(a.current_bid >= 1050); // the current bid never fell
}

#[test]
fn english_bid_below_increment_rejected() {
    let mut a = english_auction(1000);
    let before = a;
    let r = place_bid(&mut a, AUCTION_KEY, BIDDER_1, 1049, 1100);
    assert_eq!(r, Err(CouponError::InvalidPrice));
    assert_eq!(a, before); // a rejected bid changes nothing
}

#[test]
fn sealed_bid_held_blind() {
    let mut a = create_auction(
        &sample_coupon(SELLER),
        COUPON_KEY,
        SELLER,
        AuctionType::SealedBid,
        1000,
        1500,
        3600,
        false,
        1,
        0,
    )
    .unwrap();
    let r = place_bid(&mut a, AUCTION_KEY, BIDDER_1, 999, 100);
    assert_eq!(r, Err(CouponError::InvalidPrice)); // below starting price

    let out = place_bid(&mut a, AUCTION_KEY, BIDDER_1, 1200, 100).unwrap();
    assert_eq!(out.refund, None);
    assert!(!out.bid.is_winning);
    assert_eq!(a.current_bid, 0); // sealed bids never move the current bid
    assert_eq!(a.highest_bidder, None);
    assert_eq!(a.bid_count, 1);
}

#[test]
fn bid_on_dutch_rejected() {
    let mut a = create_auction(
        &sample_coupon(SELLER),
        COUPON_KEY,
        SELLER,
        AuctionType::Dutch,
        1000,
        200,
        800,
        false,
        1,
        0,
    )
    .unwrap();
    let r = place_bid(&mut a, AUCTION_KEY, BIDDER_1, 5000, 100);
    assert_eq!(r, Err(CouponError::InvalidInput));
}

#[test]
fn bid_at_or_after_end_rejected() {
    let mut a = english_auction(1000);
    // The bid window is open strictly before the end time.
    let r = place_bid(&mut a, AUCTION_KEY, BIDDER_1, 2000, 4600);
    assert_eq!(r, Err(CouponError::CouponExpired));
    let mut a = english_auction(1000);
    place_bid(&mut a, AUCTION_KEY, BIDDER_1, 2000, 4599).unwrap();
}

#[test]
fn auto_extend_pushes_end_time() {
    let mut a = create_auction(
        &sample_coupon(SELLER),
        COUPON_KEY,
        SELLER,
        AuctionType::English,
        1000,
        500,
        3600,
        true,
        50,
        1000,
    )
    .unwrap();
    assert_eq!(a.end_time, 4600);
    // A bid with 100 seconds left lands in the closing window.
    place_bid(&mut a, AUCTION_KEY, BIDDER_1, 1050, 4500).unwrap();
    assert_eq!(a.end_time, 4900);
    // A bid well before the closing window does not extend.
    place_bid(&mut a, AUCTION_KEY, BIDDER_2, 1100, 4501).unwrap();
    assert_eq!(a.end_time, 4900);
}

#[test]
fn dutch_price_follows_the_line() {
    // The worked example: 1000 falling to 200 over 800 seconds.
    let a = create_auction(
        &sample_coupon(SELLER),
        COUPON_KEY,
        SELLER,
        AuctionType::Dutch,
        1000,
        200,
        800,
        false,
        1,
        0,
    )
    .unwrap();
    assert_eq!(a.calculate_dutch_price(0), 1000);
    assert_eq!(a.calculate_dutch_price(400), 600);
    assert_eq!(a.calculate_dutch_price(800), 200);
    // Clamped outside the window.
    assert_eq!(a.calculate_dutch_price(-50), 1000);
    assert_eq!(a.calculate_dutch_price(5000), 200);
    // Spot-check monotonicity.
    let mut last = a.calculate_dutch_price(0);
    for t in [1, 100, 399, 400, 401, 799, 800] {
        let p = a.calculate_dutch_price(t);
        assert!(p <= last);
        last = p;
    }
}

#[test]
fn buy_dutch_settles_at_current_price() {
    let mut a = create_auction(
        &sample_coupon(SELLER),
        COUPON_KEY,
        SELLER,
        AuctionType::Dutch,
        1000,
        200,
        800,
        false,
        1,
        0,
    )
    .unwrap();
    let mut c = sample_coupon(SELLER);
    let sale = buy_dutch_auction(&mut a, &mut c, COUPON_KEY, BIDDER_1, 250, 400).unwrap();
    assert_eq!(sale.price, 600);
    assert_eq!(sale.marketplace_fee, 15); // 600 * 250 / 10000
    assert_eq!(sale.seller_amount, 585);
    assert_eq!(c.owner, BIDDER_1);
    assert!(!a.is_active);
    assert!(a.is_finalized);
    assert_eq!(a.current_bid, 600);
    assert_eq!(a.highest_bidder, Some(BIDDER_1));
}

#[test]
fn buy_dutch_rejects_wrong_state() {
    let mut a = create_auction(
        &sample_coupon(SELLER),
        COUPON_KEY,
        SELLER,
        AuctionType::Dutch,
        1000,
        200,
        800,
        false,
        1,
        0,
    )
    .unwrap();
    let mut c = sample_coupon(SELLER);
    let r = buy_dutch_auction(&mut a, &mut c, 999, BIDDER_1, 250, 400);
    assert_eq!(r, Err(CouponError::WrongCoupon));
    let r = buy_dutch_auction(&mut a, &mut c, COUPON_KEY, BIDDER_1, 250, 801);
    assert_eq!(r, Err(CouponError::CouponExpired));
    let mut e = english_auction(0);
    let r = buy_dutch_auction(&mut e, &mut c, COUPON_KEY, BIDDER_1, 250, 400);
    assert_eq!(r, Err(CouponError::InvalidInput));
}

#[test]
fn finalize_pays_winner_and_seller() {
    let mut a = english_auction(1000);
    let mut c = sample_coupon(SELLER);
    place_bid(&mut a, AUCTION_KEY, BIDDER_1, 2000, 1100).unwrap();
    // Settlement opens at the end time itself.
    let out = finalize_auction(&mut a, &mut c, COUPON_KEY, BIDDER_1, 250, 4600).unwrap();
    assert_eq!(
        out,
        FinalizeOutcome::Sold { winner: BIDDER_1, seller_amount: 1950, marketplace_fee: 50 }
    );
    assert_eq!(c.owner, BIDDER_1);
    assert!(!a.is_active);
    assert!(a.is_finalized);
}

#[test]
fn finalize_rejects_wrong_winner_or_time() {
    let mut a = english_auction(1000);
    let mut c = sample_coupon(SELLER);
    place_bid(&mut a, AUCTION_KEY, BIDDER_1, 2000, 1100).unwrap();
    // The end time is not reached yet.
    let r = finalize_auction(&mut a, &mut c, COUPON_KEY, BIDDER_1, 250, 4599);
    assert_eq!(r, Err(CouponError::InvalidExpiry));
    // Wrong coupon key.
    let r = finalize_auction(&mut a, &mut c, 999, BIDDER_1, 250, 4601);
    assert_eq!(r, Err(CouponError::WrongCoupon));
    // Settling against the wrong winner.
    let r = finalize_auction(&mut a, &mut c, COUPON_KEY, BIDDER_2, 250, 4601);
    assert_eq!(r, Err(CouponError::NotCouponOwner));
    assert_eq!(c.owner, SELLER); // nothing settled
}

#[test]
fn finalize_dutch_rejected() {
    // A falling-price auction ends by buy-now, never by finalize.
    let mut a = create_auction(
        &sample_coupon(SELLER),
        COUPON_KEY,
        SELLER,
        AuctionType::Dutch,
        1000,
        200,
        800,
        false,
        1,
        0,
    )
    .unwrap();
    let mut c = sample_coupon(SELLER);
    let r = finalize_auction(&mut a, &mut c, COUPON_KEY, BIDDER_1, 250, 900);
    assert_eq!(r, Err(CouponError::InvalidInput));
    assert!(a.is_active);
}

#[test]
fn finalize_no_bid_english_has_no_winner() {
    // An English auction opens with current_bid at the starting price, so
    // the reserve reads as met, but there is nobody to settle against.
    let mut a = english_auction(1000);
    let mut c = sample_coupon(SELLER);
    let r = finalize_auction(&mut a, &mut c, COUPON_KEY, BIDDER_1, 250, 4601);
    assert_eq!(r, Err(CouponError::InvalidInput));
}

#[test]
fn finalize_sealed_bid_reserve_not_met() {
    let mut a = create_auction(
        &sample_coupon(SELLER),
        COUPON_KEY,
        SELLER,
        AuctionType::SealedBid,
        1000,
        1500,
        3600,
        false,
        1,
        0,
    )
    .unwrap();
    let mut c = sample_coupon(SELLER);
    place_bid(&mut a, AUCTION_KEY, BIDDER_1, 1600, 100).unwrap();
    // Sealed bids never move current_bid, so the reserve is never met.
    let out = finalize_auction(&mut a, &mut c, COUPON_KEY, BIDDER_1, 250, 3601).unwrap();
    assert_eq!(out, FinalizeOutcome::ReserveNotMet { refund: None });
    assert!(a.is_finalized);
    assert!(!a.is_active);
    assert_eq!(c.owner, SELLER);
}

#[test]
fn cancel_succeeds_only_before_any_bid() {
    let a = english_auction(1000);
    assert_eq!(cancel_auction(&a, SELLER), Ok(()));
    assert_eq!(cancel_auction(&a, BIDDER_1), Err(CouponError::NotListingSeller));

    let mut bid_on = english_auction(1000);
    place_bid(&mut bid_on, AUCTION_KEY, BIDDER_1, 1050, 1100).unwrap();
    assert_eq!(cancel_auction(&bid_on, SELLER), Err(CouponError::InvalidInput));

    let mut closed = english_auction(1000);
    closed.is_active = false;
    assert_eq!(cancel_auction(&closed, SELLER), Err(CouponError::ListingInactive));
}
