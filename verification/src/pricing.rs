//! Constant-product pricing: the formulas, their executable form and the
//! arithmetic facts that the ledger relies on.
//!
//! In every formula `out_liq` is the pool's balance of the asset that is paid
//! out, `in_liq` its balance of the asset that is paid in, and `qty` the quantity
//! paid in. The fee is given in thousandths.

use crate::amount::Amount;
use vstd::prelude::*;

verus! {

/// The share of a payment, in thousandths, that takes part in the trade.
pub open spec fn keep_rate(fee: nat) -> nat {
    (1000 - fee) as nat
}

/// Numerator of the quote with fee.
pub open spec fn fee_numerator(out_liq: nat, qty: nat, fee: nat) -> nat {
    out_liq * qty * keep_rate(fee)
}

/// Denominator of the quote with fee.
pub open spec fn fee_denominator(in_liq: nat, qty: nat, fee: nat) -> nat {
    in_liq * 1000 + qty * keep_rate(fee)
}

/// Quantity of the output asset that a payment of `qty` buys, fee deducted.
pub open spec fn price_with_fee(out_liq: nat, in_liq: nat, qty: nat, fee: nat) -> nat {
    fee_numerator(out_liq, qty, fee) / fee_denominator(in_liq, qty, fee)
}

/// Quantity of the output asset that a payment of `qty` would buy at no fee.
pub open spec fn price_without_fee(out_liq: nat, in_liq: nat, qty: nat) -> nat {
    (out_liq * 1000 * qty) / (in_liq * 1000 + qty * 1000)
}

/// The fee realised on a payment of `qty`, in units of the output asset.
pub open spec fn fee_amount(out_liq: nat, in_liq: nat, qty: nat, fee: nat) -> nat {
    (price_without_fee(out_liq, in_liq, qty) - price_with_fee(out_liq, in_liq, qty, fee)) as nat
}

/// Skew of the pool: the larger balance divided by the smaller, never below 1.
pub open spec fn skew_ratio(a: nat, b: nat) -> nat {
    let q = if a > b {
        a / b
    } else {
        b / a
    };
    if q > 1 {
        q
    } else {
        1
    }
}

/// Floor division keeps the order of two fractions.
pub proof fn lemma_fraction_order(n1: nat, d1: nat, n2: nat, d2: nat)
    requires
        d1 > 0,
        d2 > 0,
        n1 * d2 <= n2 * d1,
    ensures
        n1 / d1 <= n2 / d2,
{
    let q = n1 / d1;
    assert(q * d1 <= n1) by (nonlinear_arith)
        requires
            q == n1 / d1,
            d1 > 0,
    ;
    assert(q * d2 <= n2) by (nonlinear_arith)
        requires
            q * d1 <= n1,
            n1 * d2 <= n2 * d1,
            d1 > 0,
            d2 > 0,
    ;
    assert(q <= n2 / d2) by (nonlinear_arith)
        requires
            q * d2 <= n2,
            d2 > 0,
    ;
}

/// The two quotes are defined on the same payments: with a fee below the whole,
/// one denominator is positive exactly when the other is.
pub proof fn lemma_denominators_agree(in_liq: nat, qty: nat, fee: nat)
    requires
        fee < 1000,
    ensures
        fee_denominator(in_liq, qty, fee) > 0 <==> in_liq * 1000 + qty * 1000 > 0,
        fee_denominator(in_liq, qty, fee) > 0 <==> (in_liq > 0 || qty > 0),
{
    let f = keep_rate(fee);
    assert(qty * f > 0 <==> qty > 0) by (nonlinear_arith)
        requires
            f > 0,
    ;
}

/// A fee never raises the quote: for every payment the quote with fee is at
/// most the quote without, and with a fee of zero the two coincide.
pub proof fn lemma_fee_lowers_price(out_liq: nat, in_liq: nat, qty: nat, fee: nat)
    requires
        fee < 1000,
        fee_denominator(in_liq, qty, fee) > 0,
    ensures
        price_with_fee(out_liq, in_liq, qty, fee) <= price_without_fee(out_liq, in_liq, qty),
        fee == 0 ==> price_with_fee(out_liq, in_liq, qty, fee) == price_without_fee(
            out_liq,
            in_liq,
            qty,
        ),
{
    let f = keep_rate(fee);
    let n1 = out_liq * qty * f;
    let d1 = in_liq * 1000 + qty * f;
    let n2 = out_liq * 1000 * qty;
    let d2 = in_liq * 1000 + qty * 1000;
    assert(d2 >= d1 && n1 * d2 <= n2 * d1) by (nonlinear_arith)
        requires
            f <= 1000,
            n1 == out_liq * qty * f,
            d1 == in_liq * 1000 + qty * f,
            n2 == out_liq * 1000 * qty,
            d2 == in_liq * 1000 + qty * 1000,
    ;
    lemma_fraction_order(n1, d1, n2, d2);
    if fee == 0 {
        assert(n1 == n2 && d1 == d2) by (nonlinear_arith)
            requires
                f == 1000,
                n1 == out_liq * qty * f,
                d1 == in_liq * 1000 + qty * f,
                n2 == out_liq * 1000 * qty,
                d2 == in_liq * 1000 + qty * 1000,
        ;
    }
}

/// The quote without fee never reaches the whole output balance of a pool
/// whose input side is funded.
pub proof fn lemma_gross_below_liquidity(out_liq: nat, in_liq: nat, qty: nat)
    requires
        in_liq > 0,
    ensures
        price_without_fee(out_liq, in_liq, qty) <= out_liq,
        out_liq > 0 ==> price_without_fee(out_liq, in_liq, qty) < out_liq,
{
    let n = out_liq * 1000 * qty;
    let d = in_liq * 1000 + qty * 1000;
    let q = n / d;
    assert(q * d <= n) by (nonlinear_arith)
        requires
            q == n / d,
            d > 0,
    ;
    assert(n <= out_liq * d && (out_liq > 0 ==> n < out_liq * d)) by (nonlinear_arith)
        requires
            n == out_liq * 1000 * qty,
            d == in_liq * 1000 + qty * 1000,
            in_liq > 0,
    ;
    assert(q <= out_liq && (out_liq > 0 ==> q < out_liq)) by (nonlinear_arith)
        requires
            q * d <= n,
            n <= out_liq * d,
            out_liq > 0 ==> n < out_liq * d,
            d > 0,
    ;
}

/// The share of a payment that takes part in the trade, `1000 - fee`, as an
/// amount.
fn keep_amount(fee: u32) -> (r: Amount)
    requires
        fee < 1000,
    ensures
        r@ == keep_rate(fee as nat),
{
    let keep: u32 = 1000 - fee;
    Amount::from_u64(keep as u64)
}

/// Computes [`fee_numerator`].
pub fn quote_numerator(out_liq: &Amount, qty: &Amount, fee: u32) -> (r: Amount)
    requires
        fee < 1000,
    ensures
        r@ == fee_numerator(out_liq@, qty@, fee as nat),
{
    let keep = keep_amount(fee);
    out_liq.times(qty).times(&keep)
}

/// Computes [`fee_denominator`].
pub fn quote_denominator(in_liq: &Amount, qty: &Amount, fee: u32) -> (r: Amount)
    requires
        fee < 1000,
    ensures
        r@ == fee_denominator(in_liq@, qty@, fee as nat),
{
    let keep = keep_amount(fee);
    let thousand = Amount::from_u64(1000);
    in_liq.times(&thousand).plus(&qty.times(&keep))
}

/// Computes [`price_with_fee`].
pub fn quote_with_fee(out_liq: &Amount, in_liq: &Amount, qty: &Amount, fee: u32) -> (r: Amount)
    requires
        fee < 1000,
        fee_denominator(in_liq@, qty@, fee as nat) > 0,
    ensures
        r@ == price_with_fee(out_liq@, in_liq@, qty@, fee as nat),
{
    let numerator = quote_numerator(out_liq, qty, fee);
    let denominator = quote_denominator(in_liq, qty, fee);
    numerator.div_floor(&denominator)
}

/// Computes [`price_without_fee`].
pub fn quote_without_fee(out_liq: &Amount, in_liq: &Amount, qty: &Amount) -> (r: Amount)
    requires
        in_liq@ * 1000 + qty@ * 1000 > 0,
    ensures
        r@ == price_without_fee(out_liq@, in_liq@, qty@),
{
    let thousand = Amount::from_u64(1000);
    let numerator = out_liq.times(&thousand).times(qty);
    let denominator = in_liq.times(&thousand).plus(&qty.times(&thousand));
    numerator.div_floor(&denominator)
}

/// Computes [`fee_amount`].
pub fn quote_fee(out_liq: &Amount, in_liq: &Amount, qty: &Amount, fee: u32) -> (r: Amount)
    requires
        fee < 1000,
        fee_denominator(in_liq@, qty@, fee as nat) > 0,
    ensures
        r@ == fee_amount(out_liq@, in_liq@, qty@, fee as nat),
{
    proof {
        lemma_denominators_agree(in_liq@, qty@, fee as nat);
        lemma_fee_lowers_price(out_liq@, in_liq@, qty@, fee as nat);
    }
    let with_fee = quote_with_fee(out_liq, in_liq, qty, fee);
    let without_fee = quote_without_fee(out_liq, in_liq, qty);
    without_fee.minus(&with_fee)
}

/// Computes [`skew_ratio`].
pub fn quote_skew(a: &Amount, b: &Amount) -> (r: Amount)
    requires
        a@ > 0,
        b@ > 0,
    ensures
        r@ == skew_ratio(a@, b@),
{
    let one = Amount::from_u64(1);
    let quotient = if a.at_most(b) {
        b.div_floor(a)
    } else {
        a.div_floor(b)
    };
    if quotient.at_most(&one) {
        one
    } else {
        quotient
    }
}

} // verus!
