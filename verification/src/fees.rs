use vstd::prelude::*;

verus! {

/// Basis-point denominator: a rate of 10000 basis points is 100%.
pub const BPS_DENOMINATOR: u64 = 10000;

/// The marketplace's cut of a settlement: `price * fee_bps / 10000`,
/// rounded down.
pub open spec fn spec_fee_amount(price: u64, fee_bps: u16) -> int {
    (price * fee_bps) / (BPS_DENOMINATOR as int)
}

/// The fee never exceeds the price it is taken from, as long as the rate is
/// at most 100%.
pub proof fn lemma_fee_le_price(price: u64, fee_bps: u16)
    requires
        fee_bps <= BPS_DENOMINATOR,
    ensures
        0 <= spec_fee_amount(price, fee_bps) <= price,
{
    vstd::arithmetic::mul::lemma_mul_inequality(fee_bps as int, 10000, price as int);
    vstd::arithmetic::div_mod::lemma_multiply_divide_le(
        price as int * fee_bps as int,
        10000,
        price as int,
    );
    vstd::arithmetic::div_mod::lemma_div_pos_is_pos(price as int * fee_bps as int, 10000);
    vstd::arithmetic::mul::lemma_mul_nonnegative(price as int, fee_bps as int);
}

/// Fee calculator: splits `price` into `(net, fee)`, where `fee` is the
/// marketplace's basis-point cut rounded down and `net` is the remainder
/// owed to the counterparty. The two parts always recompose the price.
pub fn split_fee(price: u64, fee_bps: u16) -> (r: (u64, u64))
    requires
        fee_bps <= BPS_DENOMINATOR,
    ensures
        r.1 == spec_fee_amount(price, fee_bps),
        r.0 == price - spec_fee_amount(price, fee_bps),
        r.0 + r.1 == price,
{
    proof {
        lemma_fee_le_price(price, fee_bps);
    }
    let fee: u64 = ((price as u128 * fee_bps as u128) / 10000) as u64;
    let net: u64 = price - fee;
    (net, fee)
}

} // verus!
