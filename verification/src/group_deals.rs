use vstd::prelude::*;

use crate::errors::CouponError;
use crate::fees::{spec_fee_amount, split_fee, BPS_DENOMINATOR};
use crate::registry::{Coupon, Merchant, Promotion};

verus! {

/// One step of a group deal's tiered pricing: once at least
/// `min_participants` have joined, `discount_percentage` is on offer.
/// Unused slots of a deal's fixed five-tier array hold the (0, 0) sentinel.
#[derive(Clone, Copy, Debug, PartialEq, Eq, Structural)]
pub struct DiscountTier {
    pub min_participants: u32,
    pub discount_percentage: u8,
}

impl Default for DiscountTier {
    /// The sentinel padding an unused tier slot holds: no threshold, no
    /// discount.
    fn default() -> (d: Self)
        ensures
            d.min_participants == 0,
            d.discount_percentage == 0,
    {
        DiscountTier { min_participants: 0, discount_percentage: 0 }
    }
}

/// One pooled-purchase deal over a promotion. Keys (`promotion`,
/// `merchant`, `organizer`, `escrow_vault`) are host account identities;
/// `total_escrowed` counts every lamport ever escrowed by a join (refunds
/// do not subtract from it).
#[derive(Clone, Copy, Debug, PartialEq, Eq)]
pub struct GroupDeal {
    pub promotion: u64,
    pub merchant: u64,
    pub organizer: u64,
    pub target_participants: u32,
    pub current_participants: u32,
    pub max_participants: u32,
    pub base_price: u64,
    pub discount_tiers: [DiscountTier; 5],
    pub deadline: i64,
    pub is_active: bool,
    pub is_finalized: bool,
    pub escrow_vault: u64,
    pub created_at: i64,
    pub finalized_at: i64,
    pub total_escrowed: u64,
}

/// One participant record per (deal, user), created on join and mutated at
/// most once: by a refund, or by the post-finalization mint.
#[derive(Clone, Copy, Debug, PartialEq, Eq, Structural)]
pub struct GroupParticipant {
    pub group_deal: u64,
    pub user: u64,
    pub amount_escrowed: u64,
    pub joined_at: i64,
    pub is_refunded: bool,
    pub coupon_minted: Option<u64>,
}

/// A deal together with its participant records, indexed in join order.
/// This is the content-addressed view of what the host stores as one deal
/// account plus one participant account per (deal, user) pair.
#[derive(Debug, PartialEq, Eq)]
pub struct GroupDealBook {
    pub deal_key: u64,
    pub deal: GroupDeal,
    pub participants: Vec<GroupParticipant>,
}

/// How a finalized group deal settles: the whole escrow is paid out, split
/// between the merchant and the marketplace.
#[derive(Clone, Copy, Debug, PartialEq, Eq, Structural)]
pub struct GroupSettlement {
    pub merchant_payment: u64,
    pub marketplace_fee: u64,
}

/// A refund the host ledger owes out of the deal's escrow vault to one
/// participant.
#[derive(Clone, Copy, Debug, PartialEq, Eq, Structural)]
pub struct GroupRefund {
    pub user: u64,
    pub amount: u64,
}

/// Every tier's discount is within the 50% bound creation enforces.
pub open spec fn tiers_wf(tiers: Seq<DiscountTier>) -> bool {
    forall|i: int| 0 <= i < tiers.len() ==> (#[trigger] tiers[i]).discount_percentage <= 50
}

/// The best discount among the first `i` tiers whose threshold `n`
/// participants meet; 0 if none qualifies.
pub open spec fn max_qualifying_discount(tiers: Seq<DiscountTier>, n: u32, i: int) -> int
    decreases i,
{
    if i <= 0 {
        0
    } else {
        let prev = max_qualifying_discount(tiers, n, i - 1);
        let t = tiers[i - 1];
        if t.min_participants <= n && t.discount_percentage > prev {
            t.discount_percentage as int
        } else {
            prev
        }
    }
}

/// The sum of every participant's escrowed amount, refunded or not.
pub open spec fn sum_escrowed(ps: Seq<GroupParticipant>) -> int
    decreases ps.len(),
{
    if ps.len() == 0 {
        0
    } else {
        sum_escrowed(ps.drop_last()) + ps.last().amount_escrowed
    }
}

/// Appending a participant grows the escrow sum by exactly their amount.
pub proof fn lemma_sum_escrowed_push(ps: Seq<GroupParticipant>, p: GroupParticipant)
    ensures
        sum_escrowed(ps.push(p)) == sum_escrowed(ps) + p.amount_escrowed,
{
    assert(ps.push(p).drop_last() =~= ps);
    assert(ps.push(p).last() == p);
}

/// Replacing a participant record with one escrowing the same amount leaves
/// the escrow sum unchanged.
pub proof fn lemma_sum_escrowed_update_same_amount(
    ps: Seq<GroupParticipant>,
    i: int,
    p: GroupParticipant,
)
    requires
        0 <= i < ps.len(),
        p.amount_escrowed == ps[i].amount_escrowed,
    ensures
        sum_escrowed(ps.update(i, p)) == sum_escrowed(ps),
    decreases ps.len(),
{
    if i == ps.len() - 1 {
        assert(ps.update(i, p).drop_last() =~= ps.drop_last());
    } else {
        assert(ps.update(i, p).drop_last() =~= ps.drop_last().update(i, p));
        lemma_sum_escrowed_update_same_amount(ps.drop_last(), i, p);
    }
}

impl GroupDeal {
    /// The best discount any tier whose threshold the current head-count
    /// meets has on offer; tier order does not matter, all are compared.
    pub open spec fn spec_current_discount(self) -> int {
        max_qualifying_discount(self.discount_tiers@, self.current_participants, 5)
    }

    /// What one more participant pays right now: the base price less the
    /// current tier discount, rounded down.
    pub open spec fn spec_current_price(self) -> int {
        self.base_price - self.base_price * self.spec_current_discount() / 100
    }

    pub open spec fn spec_is_target_reached(self) -> bool {
        self.current_participants >= self.target_participants
    }

    pub open spec fn spec_is_expired(self, t: int) -> bool {
        t > self.deadline
    }

    pub open spec fn spec_can_finalize(self, t: int) -> bool {
        self.is_active && !self.is_finalized && (self.spec_is_target_reached()
            || self.spec_is_expired(t))
    }

    pub fn get_current_discount(&self) -> (discount: u8)
        ensures
            discount == self.spec_current_discount(),
    {
        let mut discount: u8 = 0;
        let mut i: usize = 0;
        while i < 5
            invariant
                0 <= i <= 5,
                discount == max_qualifying_discount(
                    self.discount_tiers@,
                    self.current_participants,
                    i as int,
                ),
            decreases 5 - i,
        {
            let tier = self.discount_tiers[i];
            if self.current_participants >= tier.min_participants && tier.discount_percentage
                > discount {
                discount = tier.discount_percentage;
            }
            i = i + 1;
        }
        discount
    }

    pub fn get_current_price(&self) -> (price: u64)
        requires
            tiers_wf(self.discount_tiers@),
        ensures
            price == self.spec_current_price(),
            price <= self.base_price,
    {
        let discount = self.get_current_discount();
        proof {
            lemma_discount_bounded(self.discount_tiers@, self.current_participants, 5);
            vstd::arithmetic::mul::lemma_mul_inequality(
                discount as int,
                100,
                self.base_price as int,
            );
            vstd::arithmetic::div_mod::lemma_multiply_divide_le(
                self.base_price * discount,
                100,
                self.base_price as int,
            );
            vstd::arithmetic::mul::lemma_mul_nonnegative(self.base_price as int, discount as int);
            vstd::arithmetic::div_mod::lemma_div_pos_is_pos(self.base_price * discount, 100);
        }
        let discount_amount: u64 = ((self.base_price as u128 * discount as u128) / 100) as u64;
        self.base_price - discount_amount
    }

    pub fn is_target_reached(&self) -> (r: bool)
        ensures
            r == self.spec_is_target_reached(),
    {
        self.current_participants >= self.target_participants
    }

    pub fn is_expired(&self, current_time: i64) -> (r: bool)
        ensures
            r == self.spec_is_expired(current_time as int),
    {
        current_time > self.deadline
    }

    pub fn can_finalize(&self, current_time: i64) -> (r: bool)
        ensures
            r == self.spec_can_finalize(current_time as int),
    {
        self.is_active && !self.is_finalized && (self.is_target_reached() || self.is_expired(
            current_time,
        ))
    }
}

/// A bound on every qualifying tier discount bounds the best one too.
pub proof fn lemma_discount_bounded(tiers: Seq<DiscountTier>, n: u32, i: int)
    requires
        tiers_wf(tiers),
        i <= tiers.len(),
    ensures
        0 <= max_qualifying_discount(tiers, n, i) <= 50,
    decreases i,
{
    if i > 0 {
        lemma_discount_bounded(tiers, n, i - 1);
    }
}

/// What `get_current_discount` finds really is the non-strict maximum: no
/// qualifying tier offers more, and a non-zero result is offered by some
/// qualifying tier.
pub proof fn lemma_current_discount_is_max(tiers: Seq<DiscountTier>, n: u32, i: int)
    requires
        0 <= i <= tiers.len(),
    ensures
        forall|k: int|
            0 <= k < i && (#[trigger] tiers[k]).min_participants <= n
                ==> tiers[k].discount_percentage <= max_qualifying_discount(tiers, n, i),
        max_qualifying_discount(tiers, n, i) != 0 ==> exists|k: int|
            0 <= k < i && (#[trigger] tiers[k]).min_participants <= n
                && tiers[k].discount_percentage == max_qualifying_discount(tiers, n, i),
    decreases i,
{
    if i > 0 {
        lemma_current_discount_is_max(tiers, n, i - 1);
    }
}

impl GroupDealBook {
    /// Well-formedness every book built by `create_group_deal` has and
    /// every later operation preserves: the stored escrow total is exactly
    /// the sum of the participants' escrowed amounts, the head-count is the
    /// number of participant records, no user appears twice, every
    /// participant points back at this deal, the tier discounts are within
    /// bound, and the head-count respects the cap.
    pub open spec fn wf(self) -> bool {
        &&& self.deal.current_participants == self.participants@.len()
        &&& sum_escrowed(self.participants@) == self.deal.total_escrowed
        &&& forall|i: int, j: int|
            0 <= i < j < self.participants@.len() ==> (#[trigger] self.participants@[i]).user != (
            #[trigger] self.participants@[j]).user
        &&& forall|i: int|
            0 <= i < self.participants@.len() ==> (#[trigger] self.participants@[i]).group_deal
                == self.deal_key
        &&& tiers_wf(self.deal.discount_tiers@)
        &&& self.deal.current_participants <= self.deal.max_participants
    }
}

/// Scans the proposed tier list from slot `i` on, in order: each threshold
/// must strictly exceed the previous one, and no discount may exceed 50%.
/// Returns the error of the first violation, `None` if the rest is clean.
pub open spec fn tier_list_error(tiers: Seq<DiscountTier>, i: int) -> Option<CouponError>
    decreases tiers.len() - i,
{
    if i < 0 || i >= tiers.len() {
        None
    } else if i > 0 && tiers[i].min_participants <= tiers[i - 1].min_participants {
        Some(CouponError::InvalidInput)
    } else if tiers[i].discount_percentage > 50 {
        Some(CouponError::InvalidDiscount)
    } else {
        tier_list_error(tiers, i + 1)
    }
}

/// A clean tier list is strictly ascending by threshold from slot `i` on,
/// with every discount within the 50% bound.
pub proof fn lemma_tier_list_clean(tiers: Seq<DiscountTier>, i: int)
    requires
        0 <= i,
        tier_list_error(tiers, i) is None,
    ensures
        forall|k: int| i <= k < tiers.len() ==> (#[trigger] tiers[k]).discount_percentage <= 50,
        forall|k: int|
            i <= k < tiers.len() && k > 0 ==> (#[trigger] tiers[k]).min_participants > tiers[k
                - 1].min_participants,
    decreases tiers.len() - i,
{
    if i < tiers.len() {
        lemma_tier_list_clean(tiers, i + 1);
    }
}

/// The five-slot tier array a deal stores: the proposed tiers in order,
/// with unused slots holding the (0, 0) sentinel.
pub open spec fn padded_tiers(tiers: Seq<DiscountTier>) -> Seq<DiscountTier> {
    Seq::new(
        5,
        |i: int|
            if i < tiers.len() {
                tiers[i]
            } else {
                DiscountTier { min_participants: 0, discount_percentage: 0 }
            },
    )
}

/// The validation cascade of `create_group_deal`, in the order the checks
/// run; `None` means the deal is created.
pub open spec fn create_group_deal_check(
    promotion: Promotion,
    merchant_key: u64,
    target_participants: u32,
    max_participants: u32,
    base_price: u64,
    tiers: Seq<DiscountTier>,
    duration_seconds: i64,
) -> Option<CouponError> {
    if promotion.merchant != merchant_key {
        Some(CouponError::WrongMerchant)
    } else if target_participants <= 1 {
        Some(CouponError::InvalidSupply)
    } else if max_participants < target_participants {
        Some(CouponError::InvalidSupply)
    } else if max_participants > promotion.max_supply {
        Some(CouponError::SupplyExhausted)
    } else if base_price == 0 {
        Some(CouponError::InvalidPrice)
    } else if duration_seconds < 3600 {
        Some(CouponError::InvalidExpiry)
    } else if tiers.len() > 5 {
        Some(CouponError::InvalidInput)
    } else {
        tier_list_error(tiers, 0)
    }
}

/// Opens a pooled deal for `organizer` over `promotion` (the record behind
/// `promotion_key`, belonging to `merchant_key`). The target must be a real
/// group (more than one), the cap must cover the target without exceeding
/// the promotion's supply, the base price must be positive, the deadline at
/// least an hour out, and the at most five tiers strictly ascending with
/// discounts of at most 50%. A new deal starts active, empty, and with its
/// tier list padded to five slots by (0, 0) sentinels.
pub fn create_group_deal(
    deal_key: u64,
    promotion: &Promotion,
    promotion_key: u64,
    merchant_key: u64,
    organizer: u64,
    escrow_vault: u64,
    target_participants: u32,
    max_participants: u32,
    base_price: u64,
    discount_tiers: &Vec<DiscountTier>,
    duration_seconds: i64,
    now: i64,
) -> (r: Result<GroupDealBook, CouponError>)
    requires
        duration_seconds >= 3600 ==> now + duration_seconds <= i64::MAX,
    ensures
        ({
            let check = create_group_deal_check(
                *promotion,
                merchant_key,
                target_participants,
                max_participants,
                base_price,
                discount_tiers@,
                duration_seconds,
            );
            match check {
                Some(e) => r == Err::<GroupDealBook, CouponError>(e),
                None => {
                    &&& r matches Ok(book)
                    &&& book.deal_key == deal_key
                    &&& book.participants@ =~= Seq::<GroupParticipant>::empty()
                    &&& book.deal == (GroupDeal {
                        promotion: promotion_key,
                        merchant: merchant_key,
                        organizer,
                        target_participants,
                        current_participants: 0,
                        max_participants,
                        base_price,
                        discount_tiers: book.deal.discount_tiers,
                        deadline: (now + duration_seconds) as i64,
                        is_active: true,
                        is_finalized: false,
                        escrow_vault,
                        created_at: now,
                        finalized_at: 0,
                        total_escrowed: 0,
                    })
                    &&& book.deal.discount_tiers@ == padded_tiers(discount_tiers@)
                    &&& book.wf()
                },
            }
        }),
{
    if promotion.merchant != merchant_key {
        return Err(CouponError::WrongMerchant);
    }
    if target_participants <= 1 {
        return Err(CouponError::InvalidSupply);
    }
    if max_participants < target_participants {
        return Err(CouponError::InvalidSupply);
    }
    if max_participants > promotion.max_supply {
        return Err(CouponError::SupplyExhausted);
    }
    if base_price == 0 {
        return Err(CouponError::InvalidPrice);
    }
    if duration_seconds < 3600 {
        return Err(CouponError::InvalidExpiry);
    }
    let tier_count: usize = discount_tiers.len();
    if tier_count > 5 {
        return Err(CouponError::InvalidInput);
    }
    let mut i: usize = 0;
    while i < tier_count
        invariant
            0 <= i <= tier_count,
            tier_count == discount_tiers@.len() <= 5,
            create_group_deal_check(
                *promotion,
                merchant_key,
                target_participants,
                max_participants,
                base_price,
                discount_tiers@,
                duration_seconds,
            ) == tier_list_error(discount_tiers@, i as int),
        decreases tier_count - i,
    {
        if i > 0 && discount_tiers[i].min_participants <= discount_tiers[i - 1].min_participants {
            return Err(CouponError::InvalidInput);
        }
        if discount_tiers[i].discount_percentage > 50 {
            return Err(CouponError::InvalidDiscount);
        }
        i = i + 1;
    }
    let sentinel = DiscountTier::default();
    let mut tiers: [DiscountTier; 5] = [sentinel; 5];
    let mut j: usize = 0;
    while j < tier_count
        invariant
            0 <= j <= tier_count,
            tier_count == discount_tiers@.len() <= 5,
            tiers@.len() == 5,
            forall|k: int| 0 <= k < j ==> tiers@[k] == discount_tiers@[k],
            forall|k: int|
                j <= k < 5 ==> tiers@[k] == (DiscountTier {
                    min_participants: 0,
                    discount_percentage: 0,
                }),
        decreases tier_count - j,
    {
        tiers[j] = discount_tiers[j];
        j = j + 1;
    }
    proof {
        assert(tiers@ =~= padded_tiers(discount_tiers@));
        lemma_tier_list_clean(discount_tiers@, 0);
    }
    let deal = GroupDeal {
        promotion: promotion_key,
        merchant: merchant_key,
        organizer,
        target_participants,
        current_participants: 0,
        max_participants,
        base_price,
        discount_tiers: tiers,
        deadline: now + duration_seconds,
        is_active: true,
        is_finalized: false,
        escrow_vault,
        created_at: now,
        finalized_at: 0,
        total_escrowed: 0,
    };
    Ok(GroupDealBook { deal_key, deal, participants: Vec::new() })
}

/// The validation cascade of `join_group_deal`, in the order the checks
/// run; `None` means the join is accepted.
pub open spec fn join_check(deal: GroupDeal, now: int) -> Option<CouponError> {
    if !deal.is_active {
        Some(CouponError::PromotionInactive)
    } else if deal.is_finalized {
        Some(CouponError::ListingInactive)
    } else if deal.current_participants >= deal.max_participants {
        Some(CouponError::SupplyExhausted)
    } else if now >= deal.deadline {
        Some(CouponError::CouponExpired)
    } else {
        None
    }
}

/// `user` joins the deal, escrowing the tier price the head-count commands
/// at this moment into the deal's vault; the returned amount is what the
/// host must move. Valid only while the deal is active, unfinalized, below
/// its cap and strictly before its deadline. A join appends one participant record,
/// raises the head-count by one and the escrow total by exactly the amount
/// escrowed, so the total stays the sum of the participants' amounts. Each
/// user may hold at most one participant record per deal; the host's
/// record-keying makes a second join by the same user impossible, and this
/// function requires it. A rejected join changes nothing.
pub fn join_group_deal(book: &mut GroupDealBook, user: u64, now: i64) -> (r: Result<
    u64,
    CouponError,
>)
    requires
        old(book).wf(),
        forall|i: int|
            0 <= i < old(book).participants@.len() ==> (#[trigger] old(
                book,
            ).participants@[i]).user != user,
        old(book).deal.total_escrowed + old(book).deal.base_price <= u64::MAX,
    ensures
        join_check(old(book).deal, now as int) matches Some(e) ==> r == Err::<u64, CouponError>(e)
            && *final(book) == *old(book),
        join_check(old(book).deal, now as int) is None ==> {
            let price = old(book).deal.spec_current_price();
            &&& r == Ok::<u64, CouponError>(price as u64)
            &&& final(book).deal == (GroupDeal {
                current_participants: (old(book).deal.current_participants + 1) as u32,
                total_escrowed: (old(book).deal.total_escrowed + price) as u64,
                ..old(book).deal
            })
            &&& final(book).participants@ == old(book).participants@.push(
                GroupParticipant {
                    group_deal: old(book).deal_key,
                    user,
                    amount_escrowed: price as u64,
                    joined_at: now,
                    is_refunded: false,
                    coupon_minted: None,
                },
            )
            &&& final(book).deal_key == old(book).deal_key
        },
        r is Ok <==> join_check(old(book).deal, now as int) is None,
        final(book).wf(),
{
    if !book.deal.is_active {
        return Err(CouponError::PromotionInactive);
    }
    if book.deal.is_finalized {
        return Err(CouponError::ListingInactive);
    }
    if book.deal.current_participants >= book.deal.max_participants {
        return Err(CouponError::SupplyExhausted);
    }
    if now >= book.deal.deadline {
        return Err(CouponError::CouponExpired);
    }
    let current_price: u64 = book.deal.get_current_price();
    let participant = GroupParticipant {
        group_deal: book.deal_key,
        user,
        amount_escrowed: current_price,
        joined_at: now,
        is_refunded: false,
        coupon_minted: None,
    };
    proof {
        lemma_sum_escrowed_push(book.participants@, participant);
    }
    book.participants.push(participant);
    book.deal.current_participants = book.deal.current_participants + 1;
    book.deal.total_escrowed = book.deal.total_escrowed + current_price;
    Ok(current_price)
}

/// The validation cascade of `finalize_group_deal`, in the order the
/// checks run; `None` means the deal settles.
pub open spec fn finalize_deal_check(deal: GroupDeal, now: int) -> Option<CouponError> {
    if !deal.spec_can_finalize(now) {
        Some(CouponError::InvalidExpiry)
    } else if !deal.spec_is_target_reached() {
        Some(CouponError::InvalidSupply)
    } else {
        None
    }
}

/// Settles a deal whose target is reached (deadline or not): the whole
/// escrow total is paid out of the vault, split between the merchant and
/// the marketplace by `fee_bps`; the deal is marked finalized at `now`, and
/// the promotion's supply and the merchant's coupon tally grow by the
/// head-count. Valid only for an active, unfinalized deal that reached its
/// target. A rejected call changes nothing.
pub fn finalize_group_deal(
    book: &mut GroupDealBook,
    promotion: &mut Promotion,
    merchant: &mut Merchant,
    fee_bps: u16,
    now: i64,
) -> (r: Result<GroupSettlement, CouponError>)
    requires
        fee_bps <= BPS_DENOMINATOR,
        old(promotion).current_supply + old(book).deal.current_participants <= u32::MAX,
        old(merchant).total_coupons_created + old(book).deal.current_participants <= u64::MAX,
    ensures
        finalize_deal_check(old(book).deal, now as int) matches Some(e) ==> r == Err::<
            GroupSettlement,
            CouponError,
        >(e) && *final(book) == *old(book) && *final(promotion) == *old(promotion)
            && *final(merchant) == *old(merchant),
        finalize_deal_check(old(book).deal, now as int) is None ==> {
            let fee = spec_fee_amount(old(book).deal.total_escrowed, fee_bps);
            &&& r == Ok::<GroupSettlement, CouponError>(
                GroupSettlement {
                    merchant_payment: (old(book).deal.total_escrowed - fee) as u64,
                    marketplace_fee: fee as u64,
                },
            )
            &&& (old(book).deal.total_escrowed - fee) + fee == old(book).deal.total_escrowed
            &&& final(book).deal == (GroupDeal {
                is_finalized: true,
                finalized_at: now,
                ..old(book).deal
            })
            &&& final(book).participants@ == old(book).participants@
            &&& final(book).deal_key == old(book).deal_key
            &&& *final(promotion) == (Promotion {
                current_supply: (old(promotion).current_supply + old(
                    book,
                ).deal.current_participants) as u32,
                ..*old(promotion)
            })
            &&& *final(merchant) == (Merchant {
                total_coupons_created: (old(merchant).total_coupons_created + old(
                    book,
                ).deal.current_participants) as u64,
                ..*old(merchant)
            })
        },
        r is Ok <==> finalize_deal_check(old(book).deal, now as int) is None,
        old(book).wf() ==> final(book).wf(),
{
    if !book.deal.can_finalize(now) {
        return Err(CouponError::InvalidExpiry);
    }
    if !book.deal.is_target_reached() {
        return Err(CouponError::InvalidSupply);
    }
    let (merchant_payment, marketplace_fee) = split_fee(book.deal.total_escrowed, fee_bps);
    promotion.current_supply = promotion.current_supply + book.deal.current_participants;
    merchant.total_coupons_created = merchant.total_coupons_created
        + book.deal.current_participants as u64;
    book.deal.is_finalized = true;
    book.deal.finalized_at = now;
    Ok(GroupSettlement { merchant_payment, marketplace_fee })
}

/// The validation cascade of `refund_group_deal`, in the order the checks
/// run; `None` means the participant is paid back.
pub open spec fn refund_check(deal: GroupDeal, p: GroupParticipant, now: int) -> Option<
    CouponError,
> {
    if !deal.spec_is_expired(now) {
        Some(CouponError::InvalidExpiry)
    } else if deal.spec_is_target_reached() {
        Some(CouponError::InvalidSupply)
    } else if deal.is_finalized {
        Some(CouponError::ListingInactive)
    } else if p.is_refunded {
        Some(CouponError::CouponAlreadyRedeemed)
    } else {
        None
    }
}

/// Pays the participant at `participant_index` their escrowed amount back
/// out of the vault; the returned record is what the host must move. Valid
/// only for a deal past its deadline that never reached its target and was
/// never finalized, and only once per participant: the record is marked
/// refunded, and a second call fails with the replay error and pays
/// nothing. A rejected call changes nothing.
pub fn refund_group_deal(book: &mut GroupDealBook, participant_index: usize, now: i64) -> (r:
    Result<GroupRefund, CouponError>)
    requires
        old(book).wf(),
        participant_index < old(book).participants@.len(),
    ensures
        refund_check(
            old(book).deal,
            old(book).participants@[participant_index as int],
            now as int,
        ) matches Some(e) ==> r == Err::<GroupRefund, CouponError>(e) && *final(book) == *old(book),
        refund_check(
            old(book).deal,
            old(book).participants@[participant_index as int],
            now as int,
        ) is None ==> {
            let p = old(book).participants@[participant_index as int];
            &&& r == Ok::<GroupRefund, CouponError>(
                GroupRefund { user: p.user, amount: p.amount_escrowed },
            )
            &&& final(book).participants@ == old(book).participants@.update(
                participant_index as int,
                GroupParticipant { is_refunded: true, ..p },
            )
            &&& final(book).deal == old(book).deal
            &&& final(book).deal_key == old(book).deal_key
        },
        r is Ok <==> refund_check(
            old(book).deal,
            old(book).participants@[participant_index as int],
            now as int,
        ) is None,
        final(book).wf(),
{
    if !book.deal.is_expired(now) {
        return Err(CouponError::InvalidExpiry);
    }
    if book.deal.is_target_reached() {
        return Err(CouponError::InvalidSupply);
    }
    if book.deal.is_finalized {
        return Err(CouponError::ListingInactive);
    }
    let p: GroupParticipant = book.participants[participant_index];
    if p.is_refunded {
        return Err(CouponError::CouponAlreadyRedeemed);
    }
    let updated = GroupParticipant { is_refunded: true, ..p };
    proof {
        lemma_sum_escrowed_update_same_amount(
            book.participants@,
            participant_index as int,
            updated,
        );
    }
    book.participants[participant_index] = updated;
    Ok(GroupRefund { user: p.user, amount: p.amount_escrowed })
}

/// The validation cascade of `mint_group_coupon`, in the order the checks
/// run; `None` means the participant's coupon is minted.
pub open spec fn mint_check(deal: GroupDeal, p: GroupParticipant) -> Option<CouponError> {
    if !deal.is_finalized {
        Some(CouponError::PromotionInactive)
    } else if p.coupon_minted is Some {
        Some(CouponError::CouponAlreadyRedeemed)
    } else {
        None
    }
}

/// The metadata link every group-minted coupon is created with.
pub open spec fn spec_group_coupon_uri() -> Seq<char> {
    "https://example.com/group-coupon.json"@
}

/// Mints the coupon a finalized deal owes the participant at
/// `participant_index`: a fresh registry record (behind `coupon_key`) owned
/// by the participant, carrying the promotion's discount plus the deal's
/// tier discount as frozen at finalization, and the promotion's expiry.
/// The participant record keeps the minted coupon's key, so a second mint
/// for the same participant fails with the replay error. Valid only after
/// finalization; a rejected call changes nothing.
pub fn mint_group_coupon(
    book: &mut GroupDealBook,
    participant_index: usize,
    promotion: &Promotion,
    promotion_key: u64,
    coupon_id: u64,
    coupon_key: u64,
    now: i64,
) -> (r: Result<Coupon, CouponError>)
    requires
        participant_index < old(book).participants@.len(),
        promotion.discount_percentage + old(book).deal.spec_current_discount() <= u8::MAX,
    ensures
        mint_check(old(book).deal, old(book).participants@[participant_index as int]) matches Some(
            e,
        ) ==> r == Err::<Coupon, CouponError>(e) && *final(book) == *old(book),
        mint_check(old(book).deal, old(book).participants@[participant_index as int]) is None
            ==> {
            let p = old(book).participants@[participant_index as int];
            &&& r matches Ok(c)
            &&& c.id == coupon_id
            &&& c.promotion == promotion_key
            &&& c.owner == p.user
            &&& c.merchant == promotion.merchant
            &&& c.discount_percentage == promotion.discount_percentage + old(
                book,
            ).deal.spec_current_discount()
            &&& c.expiry_timestamp == promotion.expiry_timestamp
            &&& !c.is_redeemed
            &&& c.redeemed_at == 0
            &&& c.created_at == now
            &&& c.metadata_uri@ == spec_group_coupon_uri()
            &&& c.mint is None
            &&& final(book).participants@ == old(book).participants@.update(
                participant_index as int,
                GroupParticipant { coupon_minted: Some(coupon_key), ..p },
            )
            &&& final(book).deal == old(book).deal
            &&& final(book).deal_key == old(book).deal_key
        },
        r is Ok <==> mint_check(
            old(book).deal,
            old(book).participants@[participant_index as int],
        ) is None,
        old(book).wf() ==> final(book).wf(),
{
    if !book.deal.is_finalized {
        return Err(CouponError::PromotionInactive);
    }
    let p: GroupParticipant = book.participants[participant_index];
    if p.coupon_minted.is_some() {
        return Err(CouponError::CouponAlreadyRedeemed);
    }
    let deal_discount: u8 = book.deal.get_current_discount();
    let coupon = Coupon {
        id: coupon_id,
        promotion: promotion_key,
        owner: p.user,
        merchant: promotion.merchant,
        discount_percentage: promotion.discount_percentage + deal_discount,
        expiry_timestamp: promotion.expiry_timestamp,
        is_redeemed: false,
        redeemed_at: 0,
        created_at: now,
        metadata_uri: "https://example.com/group-coupon.json".to_string(),
        mint: None,
    };
    let updated = GroupParticipant { coupon_minted: Some(coupon_key), ..p };
    proof {
        lemma_sum_escrowed_update_same_amount(
            book.participants@,
            participant_index as int,
            updated,
        );
    }
    book.participants[participant_index] = updated;
    Ok(coupon)
}

/// Refund and finalize are mutually exclusive at every state and time: a
/// deal at or above its target can settle but never refund, a deal below
/// it can refund (once expired) but never settle.
pub proof fn lemma_refund_finalize_exclusive(deal: GroupDeal, p: GroupParticipant, t: int)
    ensures
        !(refund_check(deal, p, t) is None && finalize_deal_check(deal, t) is None),
{
}

/// A refund is not repeatable: once a participant was refunded, refunding
/// the same record again at any later time fails with exactly the replay
/// error, whatever else time does to the unchanged deal.
pub proof fn lemma_second_refund_fails(deal: GroupDeal, p: GroupParticipant, t1: int, t2: int)
    requires
        refund_check(deal, p, t1) is None,
        t1 <= t2,
    ensures
        refund_check(deal, GroupParticipant { is_refunded: true, ..p }, t2) == Some(
            CouponError::CouponAlreadyRedeemed,
        ),
{
}

/// How one engine step may move a deal record at time `now`: an accepted
/// join, a successful finalization, or an operation that leaves the deal
/// record itself unchanged (a refund, a mint, or no operation at all).
pub open spec fn deal_step(pre: GroupDeal, post: GroupDeal, now: int) -> bool {
    ||| join_step(pre, post, now)
    ||| finalize_step(pre, post, now)
    ||| post == pre
}

/// An accepted join's effect on the deal record.
pub open spec fn join_step(pre: GroupDeal, post: GroupDeal, now: int) -> bool {
    &&& join_check(pre, now) is None
    &&& post == (GroupDeal {
        current_participants: (pre.current_participants + 1) as u32,
        total_escrowed: (pre.total_escrowed + pre.spec_current_price()) as u64,
        ..pre
    })
}

/// A successful finalization's effect on the deal record.
pub open spec fn finalize_step(pre: GroupDeal, post: GroupDeal, now: int) -> bool {
    &&& finalize_deal_check(pre, now) is None
    &&& post == (GroupDeal { is_finalized: true, finalized_at: now as i64, ..pre })
}

/// Once a deal reaches its target, no engine step can take it back below.
pub proof fn lemma_target_reached_stable(pre: GroupDeal, post: GroupDeal, now: int)
    requires
        deal_step(pre, post, now),
        pre.spec_is_target_reached(),
    ensures
        post.spec_is_target_reached(),
{
}

/// A deal past its deadline and below its target is frozen: no engine
/// step can change its record at all — a join is expired, a finalization
/// lacks the target, and everything else leaves the record as it is.
pub proof fn lemma_refundable_deal_frozen(pre: GroupDeal, post: GroupDeal, now: int)
    requires
        deal_step(pre, post, now),
        now > pre.deadline,
        !pre.spec_is_target_reached(),
    ensures
        post == pre,
{
}

/// Times along a non-decreasing chain never fall back.
proof fn lemma_times_monotone(times: Seq<int>, i: int, j: int)
    requires
        forall|k: int| 0 <= k < times.len() - 1 ==> #[trigger] times[k] <= times[k + 1],
        0 <= i <= j < times.len(),
    ensures
        times[i] <= times[j],
    decreases j - i,
{
    if i < j {
        lemma_times_monotone(times, i, j - 1);
        assert(times[j - 1] <= times[j]);
    }
}

/// Every link of a step chain out of a refundable state leaves the deal
/// where it was.
proof fn lemma_frozen_chain(states: Seq<GroupDeal>, times: Seq<int>, k: int)
    requires
        states.len() == times.len() + 1,
        forall|m: int| 0 <= m < times.len() ==> deal_step(states[m], states[m + 1], times[m]),
        forall|m: int| 0 <= m < times.len() - 1 ==> #[trigger] times[m] <= times[m + 1],
        times.len() > 0,
        times[0] > states[0].deadline,
        !states[0].spec_is_target_reached(),
        0 <= k < states.len(),
    ensures
        states[k] == states[0],
    decreases k,
{
    if k > 0 {
        lemma_frozen_chain(states, times, k - 1);
        lemma_times_monotone(times, 0, k - 1);
        assert(deal_step(states[k - 1], states[k], times[k - 1]));
        lemma_refundable_deal_frozen(states[k - 1], states[k], times[k - 1]);
    }
}

/// A deal that became refundable can never later be finalized: once it sits
/// past its deadline below its target, every engine step taken at any
/// non-decreasing later time leaves the record unchanged, so it stays
/// unfinalized forever. `states[m]` is the deal before the `m`-th step,
/// taken at `times[m]`.
pub proof fn lemma_refundable_never_finalized(states: Seq<GroupDeal>, times: Seq<int>)
    requires
        states.len() == times.len() + 1,
        forall|m: int| 0 <= m < times.len() ==> deal_step(states[m], states[m + 1], times[m]),
        forall|m: int| 0 <= m < times.len() - 1 ==> #[trigger] times[m] <= times[m + 1],
        times.len() > 0,
        times[0] > states[0].deadline,
        !states[0].spec_is_target_reached(),
        !states[0].is_finalized,
    ensures
        forall|k: int| 0 <= k < states.len() ==> #[trigger] states[k] == states[0],
        forall|k: int| 0 <= k < states.len() ==> !(#[trigger] states[k]).is_finalized,
{
    assert forall|k: int| 0 <= k < states.len() implies #[trigger] states[k] == states[0] by {
        lemma_frozen_chain(states, times, k);
    }
}

/// Every link of a step chain out of a target-reached state keeps the
/// target reached.
proof fn lemma_target_chain(states: Seq<GroupDeal>, times: Seq<int>, k: int)
    requires
        states.len() == times.len() + 1,
        forall|m: int| 0 <= m < times.len() ==> deal_step(states[m], states[m + 1], times[m]),
        states[0].spec_is_target_reached(),
        0 <= k < states.len(),
    ensures
        states[k].spec_is_target_reached(),
    decreases k,
{
    if k > 0 {
        lemma_target_chain(states, times, k - 1);
        assert(deal_step(states[k - 1], states[k], times[k - 1]));
        lemma_target_reached_stable(states[k - 1], states[k], times[k - 1]);
    }
}

/// A deal that reached its target can never be refunded: across every
/// chain of engine steps the target stays reached, and a refund of any
/// participant at any time is rejected at every reachable state.
/// `states[m]` is the deal before the `m`-th step, taken at `times[m]`.
pub proof fn lemma_target_reached_never_refundable(states: Seq<GroupDeal>, times: Seq<int>)
    requires
        states.len() == times.len() + 1,
        forall|m: int| 0 <= m < times.len() ==> deal_step(states[m], states[m + 1], times[m]),
        states[0].spec_is_target_reached(),
    ensures
        forall|k: int| 0 <= k < states.len() ==> (#[trigger] states[k]).spec_is_target_reached(),
        forall|k: int, p: GroupParticipant, t: int|
            0 <= k < states.len() ==> #[trigger] refund_check(states[k], p, t) is Some,
{
    assert forall|k: int|
        0 <= k < states.len() implies (#[trigger] states[k]).spec_is_target_reached() by {
        lemma_target_chain(states, times, k);
    }
}

} // verus!
