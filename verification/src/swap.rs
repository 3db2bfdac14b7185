//! One swap against the pool, seen from the side of the two assets involved:
//! the asset paid in and the asset paid out.

use crate::amount::Amount;
use crate::pricing::{
    fee_amount, lemma_fee_lowers_price, lemma_gross_below_liquidity, price_with_fee,
    price_without_fee, quote_skew, quote_with_fee, quote_without_fee, skew_ratio,
};
use vstd::prelude::*;

verus! {

/// The balances that a swap touches, and what it pays the trader.
pub struct Trade {
    /// Pool balance of the asset paid in.
    pub in_liq: nat,
    /// Pool balance of the asset paid out.
    pub out_liq: nat,
    /// Accrued fees in the asset paid out.
    pub out_earn: nat,
    /// Quantity of the output asset owed to the trader.
    pub paid: nat,
}

/// The swap before the product is corrected: the payment joins the input
/// balance, the quote without fee leaves the output balance, and the difference
/// between the two quotes is booked as earnings.
pub open spec fn trade_uncorrected(
    in_liq: nat,
    out_liq: nat,
    out_earn: nat,
    fee: nat,
    qty: nat,
) -> Trade {
    Trade {
        in_liq: in_liq + qty,
        out_liq: (out_liq - price_without_fee(out_liq, in_liq, qty)) as nat,
        out_earn: out_earn + fee_amount(out_liq, in_liq, qty, fee),
        paid: price_with_fee(out_liq, in_liq, qty, fee),
    }
}

/// The correction of the product after a swap. When the product of the two
/// balances differs from `initial_k`, the skew ratio is moved between the
/// output balance and the output earnings: out of the balance when the product
/// is too large, back into it when the product is too small. The result is
/// `None` when the side that has to give holds less than the ratio.
pub open spec fn trade_corrected(t: Trade, initial_k: nat) -> Option<Trade> {
    let k = t.in_liq * t.out_liq;
    let ratio = skew_ratio(t.in_liq, t.out_liq);
    if k == initial_k {
        Some(t)
    } else if k > initial_k {
        if t.out_liq >= ratio {
            Some(
                Trade {
                    out_liq: (t.out_liq - ratio) as nat,
                    out_earn: t.out_earn + ratio,
                    ..t
                },
            )
        } else {
            None
        }
    } else {
        if t.out_earn >= ratio {
            Some(
                Trade {
                    out_liq: t.out_liq + ratio,
                    out_earn: (t.out_earn - ratio) as nat,
                    ..t
                },
            )
        } else {
            None
        }
    }
}

/// A whole swap: [`trade_uncorrected`] followed by [`trade_corrected`].
pub open spec fn trade(
    in_liq: nat,
    out_liq: nat,
    out_earn: nat,
    initial_k: nat,
    fee: nat,
    qty: nat,
) -> Option<Trade> {
    trade_corrected(trade_uncorrected(in_liq, out_liq, out_earn, fee, qty), initial_k)
}

/// The new balances after a swap, and the payout.
#[derive(Debug)]
pub struct Settlement {
    pub in_liq: Amount,
    pub out_liq: Amount,
    pub out_earn: Amount,
    pub paid: Amount,
}

impl View for Settlement {
    type V = Trade;

    open spec fn view(&self) -> Trade {
        Trade {
            in_liq: self.in_liq@,
            out_liq: self.out_liq@,
            out_earn: self.out_earn@,
            paid: self.paid@,
        }
    }
}

/// Applies the correction of the product to a swap that has been booked.
/// Returns `None` exactly when the balance or the earnings that would have to
/// give the ratio hold less than it.
pub fn correct(booked: Settlement, initial_k: &Amount) -> (r: Option<Settlement>)
    requires
        booked@.in_liq > 0,
        booked@.out_liq > 0,
    ensures
        match trade_corrected(booked@, initial_k@) {
            Some(t) => r.is_some() && r.unwrap()@ == t,
            None => r.is_none(),
        },
{
    let k = booked.in_liq.times(&booked.out_liq);
    if k.same(initial_k) {
        return Some(booked);
    }
    let ratio = quote_skew(&booked.in_liq, &booked.out_liq);
    if initial_k.at_most(&k) {
        match booked.out_liq.checked_minus(&ratio) {
            Some(lowered) => Some(
                Settlement {
                    in_liq: booked.in_liq,
                    out_liq: lowered,
                    out_earn: booked.out_earn.plus(&ratio),
                    paid: booked.paid,
                },
            ),
            None => None,
        }
    } else {
        match booked.out_earn.checked_minus(&ratio) {
            Some(lowered) => Some(
                Settlement {
                    in_liq: booked.in_liq,
                    out_liq: booked.out_liq.plus(&ratio),
                    out_earn: lowered,
                    paid: booked.paid,
                },
            ),
            None => None,
        }
    }
}

/// Carries out a swap of `qty` against a pool with both sides funded.
/// Returns the new balances and the payout, or `None` exactly when the
/// correction of the product cannot be booked.
pub fn settle(
    in_liq: &Amount,
    out_liq: &Amount,
    out_earn: &Amount,
    initial_k: &Amount,
    fee: u32,
    qty: &Amount,
) -> (r: Option<Settlement>)
    requires
        fee < 1000,
        in_liq@ > 0,
        out_liq@ > 0,
    ensures
        match trade(in_liq@, out_liq@, out_earn@, initial_k@, fee as nat, qty@) {
            Some(t) => r.is_some() && r.unwrap()@ == t,
            None => r.is_none(),
        },
{
    let paid = quote_with_fee(out_liq, in_liq, qty, fee);
    let gross = quote_without_fee(out_liq, in_liq, qty);
    proof {
        lemma_fee_lowers_price(out_liq@, in_liq@, qty@, fee as nat);
        lemma_gross_below_liquidity(out_liq@, in_liq@, qty@);
    }
    let earned = gross.minus(&paid);
    let booked = Settlement {
        in_liq: in_liq.plus(qty),
        out_liq: out_liq.minus(&gross),
        out_earn: out_earn.plus(&earned),
        paid,
    };
    correct(booked, initial_k)
}

} // verus!
