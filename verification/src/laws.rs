//! What holds of the ledger as a whole, proved from the rules of its
//! operations.

use crate::pricing::{
    fee_denominator, fee_numerator, keep_rate, lemma_denominators_agree, lemma_fee_lowers_price,
    lemma_fraction_order, lemma_gross_below_liquidity, price_with_fee, price_without_fee,
    skew_ratio,
};
use crate::swap::{trade, trade_corrected, trade_uncorrected, Trade};
use crate::testdex::{Asset, DexError, PairState, Status};
use vstd::prelude::*;

verus! {

/// A call of one of the operations that change the ledger.
pub enum Operation {
    AddLiquidityToken { by_owner: bool, asset: Asset, payment: nat },
    AddLiquidityEgld { by_owner: bool, asset: Asset, payment: nat },
    ClaimLiquidityToken { by_owner: bool },
    ClaimLiquidityEgld { by_owner: bool },
    ClaimEarnings { by_owner: bool, asset: Asset },
    EgldToToken { asset: Asset, payment: nat },
    TokenToEgld { asset: Asset, payment: nat },
}

/// The state after `op`; a rejected operation leaves the state as it was.
pub open spec fn apply(s: PairState, op: Operation) -> PairState {
    match op {
        Operation::AddLiquidityToken { by_owner, asset, payment } => match s.add_liquidity_token(
            by_owner,
            asset,
            payment,
        ) {
            Ok(next) => next,
            Err(_) => s,
        },
        Operation::AddLiquidityEgld { by_owner, asset, payment } => match s.add_liquidity_egld(
            by_owner,
            asset,
            payment,
        ) {
            Ok(next) => next,
            Err(_) => s,
        },
        Operation::ClaimLiquidityToken { by_owner } => match s.claim_liquidity_token(by_owner) {
            Ok((next, _)) => next,
            Err(_) => s,
        },
        Operation::ClaimLiquidityEgld { by_owner } => match s.claim_liquidity_egld(by_owner) {
            Ok((next, _)) => next,
            Err(_) => s,
        },
        Operation::ClaimEarnings { by_owner, asset } => match s.claim_earnings(by_owner, asset) {
            Ok((next, _)) => next,
            Err(_) => s,
        },
        Operation::EgldToToken { asset, payment } => match s.egld_to_token(asset, payment) {
            Ok((next, _)) => next,
            Err(_) => s,
        },
        Operation::TokenToEgld { asset, payment } => match s.token_to_egld(asset, payment) {
            Ok((next, _)) => next,
            Err(_) => s,
        },
    }
}

/// Whether `op` is one of the two deposits.
pub open spec fn is_deposit(op: Operation) -> bool {
    op is AddLiquidityToken || op is AddLiquidityEgld
}

/// The state after the operations of `ops`, in order.
pub open spec fn run(s: PairState, ops: Seq<Operation>) -> PairState
    decreases ops.len(),
{
    if ops.len() == 0 {
        s
    } else {
        run(apply(s, ops[0]), ops.drop_first())
    }
}

/// Whether the pair is funded before each operation of `ops`.
pub open spec fn funded_before_each(s: PairState, ops: Seq<Operation>) -> bool
    decreases ops.len(),
{
    if ops.len() == 0 {
        true
    } else {
        s.status() == Status::Successful && funded_before_each(
            apply(s, ops[0]),
            ops.drop_first(),
        )
    }
}

/// The distance between two numbers.
pub open spec fn distance(a: nat, b: nat) -> nat {
    if a >= b {
        (a - b) as nat
    } else {
        (b - a) as nat
    }
}

/// The frozen product changes in one step only: a deposit that is accepted
/// while the pair is funding, has no frozen product yet and is left funded.
/// That step sets it to the product of the two balances, which is positive.
/// No operation changes the fee.
pub proof fn law_initial_k_changes_only_on_funding(s: PairState, op: Operation)
    ensures
        apply(s, op).fee == s.fee,
        apply(s, op).initial_k != s.initial_k ==> is_deposit(op) && s.initial_k == 0 && s.status()
            == Status::Funding && apply(s, op).status() == Status::Successful,
        is_deposit(op) && s.initial_k == 0 && s.status() == Status::Funding && apply(
            s,
            op,
        ).status() == Status::Successful ==> apply(s, op).initial_k == apply(s, op).calculate_k()
            && apply(s, op).initial_k > 0,
{
    let next = apply(s, op);
    if next.status() == Status::Successful {
        assert(next.egld * next.token > 0) by (nonlinear_arith)
            requires
                next.egld > 0,
                next.token > 0,
        ;
    }
}

/// The frozen product is set at most once: once it is there, no sequence of
/// operations changes it, whether or not the pair is drained and funded again
/// on the way.
pub proof fn law_initial_k_set_at_most_once(s: PairState, ops: Seq<Operation>)
    requires
        s.initial_k != 0,
    ensures
        run(s, ops).initial_k == s.initial_k,
    decreases ops.len(),
{
    if ops.len() > 0 {
        law_initial_k_changes_only_on_funding(s, ops[0]);
        law_initial_k_set_at_most_once(apply(s, ops[0]), ops.drop_first());
    }
}

/// Once the pair is funded every deposit is rejected and changes nothing: the
/// deposit that funds the pair is the last one taken until a balance is
/// drained again.
pub proof fn law_deposit_rejected_once_funded(
    s: PairState,
    by_owner: bool,
    asset: Asset,
    payment: nat,
)
    requires
        s.status() == Status::Successful,
    ensures
        s.add_liquidity_token(by_owner, asset, payment) is Err,
        s.add_liquidity_egld(by_owner, asset, payment) is Err,
        by_owner && asset == Asset::Token ==> s.add_liquidity_token(by_owner, asset, payment)
            == Err::<PairState, DexError>(DexError::PairAlreadyFunded),
        by_owner && asset == Asset::Egld ==> s.add_liquidity_egld(by_owner, asset, payment)
            == Err::<PairState, DexError>(DexError::PairAlreadyFunded),
{
}

/// A funded pair has a frozen product: if that holds at the start it holds
/// after every sequence of operations, and it holds of a new pair. Swaps, which
/// need a funded pair, therefore always compare against the product of the
/// first funding.
pub proof fn law_funded_pair_has_product(s: PairState, ops: Seq<Operation>)
    requires
        s.status() == Status::Successful ==> s.initial_k > 0,
    ensures
        run(s, ops).status() == Status::Successful ==> run(s, ops).initial_k > 0,
        PairState::start(s.fee).status() == Status::Funding,
    decreases ops.len(),
{
    if ops.len() > 0 {
        law_initial_k_changes_only_on_funding(s, ops[0]);
        law_funded_pair_has_product(apply(s, ops[0]), ops.drop_first());
    }
}

/// Over any sequence of operations before each of which the pair is funded,
/// the frozen product stays what it was.
pub proof fn law_initial_k_frozen_while_funded(s: PairState, ops: Seq<Operation>)
    requires
        funded_before_each(s, ops),
    ensures
        run(s, ops).initial_k == s.initial_k,
    decreases ops.len(),
{
    if ops.len() > 0 {
        law_initial_k_changes_only_on_funding(s, ops[0]);
        law_initial_k_frozen_while_funded(apply(s, ops[0]), ops.drop_first());
    }
}

/// Whether the pair is still funding before each operation of `ops`.
pub open spec fn funding_before_each(s: PairState, ops: Seq<Operation>) -> bool
    decreases ops.len(),
{
    if ops.len() == 0 {
        true
    } else {
        s.status() == Status::Funding && funding_before_each(apply(s, ops[0]), ops.drop_first())
    }
}

/// Until the pair is funded for the first time there is no frozen product: a
/// pair that starts without one and is funding before each operation ends
/// either funded or still without one.
pub proof fn law_no_product_before_funding(s: PairState, ops: Seq<Operation>)
    requires
        s.initial_k == 0,
        funding_before_each(s, ops),
    ensures
        run(s, ops).status() == Status::Funding ==> run(s, ops).initial_k == 0,
    decreases ops.len(),
{
    reveal_with_fuel(run, 2);
    reveal_with_fuel(funding_before_each, 2);
    if ops.len() > 0 {
        law_initial_k_changes_only_on_funding(s, ops[0]);
        let rest = ops.drop_first();
        if rest.len() > 0 {
            law_no_product_before_funding(apply(s, ops[0]), rest);
        }
    }
}

/// The fee is set at construction and no sequence of operations changes it.
pub proof fn law_fee_is_constant(s: PairState, ops: Seq<Operation>)
    ensures
        run(s, ops).fee == s.fee,
        s.valid() ==> run(s, ops).valid(),
    decreases ops.len(),
{
    if ops.len() > 0 {
        law_initial_k_changes_only_on_funding(s, ops[0]);
        law_fee_is_constant(apply(s, ops[0]), ops.drop_first());
    }
}

/// Swaps and claims of earnings never touch the frozen product, whatever the
/// phase of the pair.
pub proof fn law_swaps_keep_initial_k(s: PairState, ops: Seq<Operation>)
    requires
        forall|i: int|
            0 <= i < ops.len() ==> (#[trigger] ops[i] is EgldToToken || ops[i] is TokenToEgld
                || ops[i] is ClaimEarnings),
    ensures
        run(s, ops).initial_k == s.initial_k,
    decreases ops.len(),
{
    if ops.len() > 0 {
        assert(ops[0] is EgldToToken || ops[0] is TokenToEgld || ops[0] is ClaimEarnings);
        law_initial_k_changes_only_on_funding(s, ops[0]);
        let rest = ops.drop_first();
        assert forall|i: int| 0 <= i < rest.len() implies (#[trigger] rest[i] is EgldToToken
            || rest[i] is TokenToEgld || rest[i] is ClaimEarnings) by {
            assert(rest[i] == ops[i + 1]);
        }
        law_swaps_keep_initial_k(apply(s, ops[0]), rest);
    }
}

/// A deposit of nothing, when accepted, leaves the whole state as it was.
pub proof fn law_empty_deposit_changes_nothing(s: PairState, by_owner: bool, asset: Asset)
    ensures
        apply(s, Operation::AddLiquidityToken { by_owner, asset, payment: 0 }) == s,
        apply(s, Operation::AddLiquidityEgld { by_owner, asset, payment: 0 }) == s,
{
}

/// The quote with fee never exceeds the quote at no fee, in either direction,
/// and with a fee of zero the two are equal.
pub proof fn law_fee_never_raises_quote(s: PairState, qty: nat)
    requires
        s.valid(),
    ensures
        s.egld > 0 || qty > 0 ==> s.price_egld_token(qty) <= s.price_egld_token_no_fee(qty),
        s.token > 0 || qty > 0 ==> s.price_token_egld(qty) <= s.price_token_egld_no_fee(qty),
        s.fee == 0 && (s.egld > 0 || qty > 0) ==> s.price_egld_token(qty)
            == s.price_egld_token_no_fee(qty),
        s.fee == 0 && (s.token > 0 || qty > 0) ==> s.price_token_egld(qty)
            == s.price_token_egld_no_fee(qty),
{
    lemma_denominators_agree(s.egld, qty, s.fee);
    lemma_denominators_agree(s.token, qty, s.fee);
    if s.egld > 0 || qty > 0 {
        lemma_fee_lowers_price(s.token, s.egld, qty, s.fee);
    }
    if s.token > 0 || qty > 0 {
        lemma_fee_lowers_price(s.egld, s.token, qty, s.fee);
    }
}

/// The quote falls as the fee rises: of two fees the higher one never gives
/// the larger quote.
pub proof fn law_quote_falls_as_fee_rises(
    out_liq: nat,
    in_liq: nat,
    qty: nat,
    low_fee: nat,
    high_fee: nat,
)
    requires
        low_fee <= high_fee < 1000,
        in_liq > 0 || qty > 0,
    ensures
        price_with_fee(out_liq, in_liq, qty, high_fee) <= price_with_fee(
            out_liq,
            in_liq,
            qty,
            low_fee,
        ),
{
    let f1 = keep_rate(high_fee);
    let f2 = keep_rate(low_fee);
    let n1 = out_liq * qty * f1;
    let d1 = in_liq * 1000 + qty * f1;
    let n2 = out_liq * qty * f2;
    let d2 = in_liq * 1000 + qty * f2;
    lemma_denominators_agree(in_liq, qty, high_fee);
    lemma_denominators_agree(in_liq, qty, low_fee);
    let base = out_liq * qty * in_liq;
    assert(n1 * d2 == base * (1000 * f1) + (out_liq * qty * qty) * (f1 * f2)) by (nonlinear_arith)
        requires
            n1 == out_liq * qty * f1,
            d2 == in_liq * 1000 + qty * f2,
            base == out_liq * qty * in_liq,
    ;
    assert(n2 * d1 == base * (1000 * f2) + (out_liq * qty * qty) * (f1 * f2)) by (nonlinear_arith)
        requires
            n2 == out_liq * qty * f2,
            d1 == in_liq * 1000 + qty * f1,
            base == out_liq * qty * in_liq,
    ;
    assert(base * (1000 * f1) <= base * (1000 * f2)) by (nonlinear_arith)
        requires
            f1 <= f2,
    ;
    lemma_fraction_order(n1, d1, n2, d2);
}

/// Before truncation a positive fee strictly lowers the quote of a positive
/// payment into a funded pool: compared as fractions, the quote with fee is
/// strictly smaller than the quote without.
pub proof fn law_fee_strictly_lowers_fraction(out_liq: nat, in_liq: nat, qty: nat, fee: nat)
    requires
        0 < fee < 1000,
        qty > 0,
        out_liq > 0,
        in_liq > 0,
    ensures
        fee_numerator(out_liq, qty, fee) * (in_liq * 1000 + qty * 1000) < (out_liq * 1000 * qty)
            * fee_denominator(in_liq, qty, fee),
{
    let f = keep_rate(fee);
    let base = out_liq * qty * in_liq;
    assert(base > 0) by (nonlinear_arith)
        requires
            base == out_liq * qty * in_liq,
            out_liq > 0,
            qty > 0,
            in_liq > 0,
    ;
    assert((out_liq * qty * f) * (in_liq * 1000 + qty * 1000) == base * (1000 * f) + (out_liq
        * qty * qty) * (1000 * f)) by (nonlinear_arith)
        requires
            base == out_liq * qty * in_liq,
    ;
    assert((out_liq * 1000 * qty) * (in_liq * 1000 + qty * f) == base * 1000000 + (out_liq * qty
        * qty) * (1000 * f)) by (nonlinear_arith)
        requires
            base == out_liq * qty * in_liq,
    ;
    assert(base * (1000 * f) < base * 1000000) by (nonlinear_arith)
        requires
            base > 0,
            f < 1000,
    ;
}

/// Claiming twice in a row: the first claim returns the whole balance, the
/// second returns zero and changes nothing. This holds of the earnings in
/// either asset and of both liquidity balances.
pub proof fn law_claim_twice(s: PairState, asset: Asset)
    ensures
        ({
            let (s1, first) = s.claim_earnings(true, asset).unwrap();
            let (s2, second) = s1.claim_earnings(true, asset).unwrap();
            &&& first == (if asset == Asset::Token {
                s.earn_token
            } else {
                s.earn_egld
            })
            &&& second == 0
            &&& s2 == s1
        }),
        ({
            let (s1, first) = s.claim_liquidity_token(true).unwrap();
            let (s2, second) = s1.claim_liquidity_token(true).unwrap();
            first == s.token && second == 0 && s2 == s1
        }),
        ({
            let (s1, first) = s.claim_liquidity_egld(true).unwrap();
            let (s2, second) = s1.claim_liquidity_egld(true).unwrap();
            first == s.egld && second == 0 && s2 == s1
        }),
{
}

/// What the correction does to the product. It leaves the input balance and
/// the payout alone and moves the skew ratio between the output balance and the
/// output earnings, so their sum is kept. It moves the product towards the
/// frozen one by the ratio times the input balance. The product ends no
/// farther from the frozen one than it was exactly when that step is at most
/// twice the distance before.
pub proof fn law_correction_effect(t: Trade, initial_k: nat)
    requires
        trade_corrected(t, initial_k) is Some,
    ensures
        ({
            let c = trade_corrected(t, initial_k).unwrap();
            let k = t.in_liq * t.out_liq;
            let corrected_k = c.in_liq * c.out_liq;
            let step = skew_ratio(t.in_liq, t.out_liq) * t.in_liq;
            &&& c.in_liq == t.in_liq
            &&& c.paid == t.paid
            &&& c.out_liq + c.out_earn == t.out_liq + t.out_earn
            &&& k == initial_k ==> c == t
            &&& k > initial_k ==> corrected_k == k - step
            &&& k < initial_k ==> corrected_k == k + step
            &&& distance(corrected_k, initial_k) <= distance(k, initial_k) <==> (k == initial_k
                || step <= 2 * distance(k, initial_k))
        }),
{
    let c = trade_corrected(t, initial_k).unwrap();
    let ratio = skew_ratio(t.in_liq, t.out_liq);
    let k = t.in_liq * t.out_liq;
    let step = ratio * t.in_liq;
    if k > initial_k {
        assert(t.in_liq * ((t.out_liq - ratio) as nat) == k - step) by (nonlinear_arith)
            requires
                k == t.in_liq * t.out_liq,
                step == ratio * t.in_liq,
                t.out_liq >= ratio,
        ;
    } else if k < initial_k {
        assert(t.in_liq * (t.out_liq + ratio) == k + step) by (nonlinear_arith)
            requires
                k == t.in_liq * t.out_liq,
                step == ratio * t.in_liq,
        ;
    }
}

/// The correction is refused exactly when the side that has to give the ratio
/// holds less than it: the output balance when the product is too large, the
/// output earnings when it is too small. An accepted correction therefore
/// never takes a balance or the earnings below zero.
pub proof fn law_correction_refused_when_short(t: Trade, initial_k: nat)
    ensures
        trade_corrected(t, initial_k) is None <==> ({
            let k = t.in_liq * t.out_liq;
            let ratio = skew_ratio(t.in_liq, t.out_liq);
            (k > initial_k && t.out_liq < ratio) || (k < initial_k && t.out_earn < ratio)
        }),
{
}

/// A swap pays out of the pool: what the pool holds of the output asset,
/// balance and earnings together, falls by exactly the payout, and its input
/// balance grows by exactly the payment.
pub proof fn law_swap_conserves_assets(
    in_liq: nat,
    out_liq: nat,
    out_earn: nat,
    initial_k: nat,
    fee: nat,
    qty: nat,
)
    requires
        fee < 1000,
        in_liq > 0,
        trade(in_liq, out_liq, out_earn, initial_k, fee, qty) is Some,
    ensures
        ({
            let done = trade(in_liq, out_liq, out_earn, initial_k, fee, qty).unwrap();
            &&& done.in_liq == in_liq + qty
            &&& done.paid == price_with_fee(out_liq, in_liq, qty, fee)
            &&& done.out_liq + done.out_earn + done.paid == out_liq + out_earn
        }),
{
    lemma_denominators_agree(in_liq, qty, fee);
    lemma_fee_lowers_price(out_liq, in_liq, qty, fee);
    lemma_gross_below_liquidity(out_liq, in_liq, qty);
    law_correction_effect(trade_uncorrected(in_liq, out_liq, out_earn, fee, qty), initial_k);
}

/// Selling back, exactly. A pool whose input balance was `in_liq` took in
/// `qty` and paid `paid`; when `paid` is sold back the pool holds `in_liq + qty`
/// of the first asset and `back_liq` of the second. The quote of the sale is at
/// most `qty` exactly when the inequality below holds, and exceeds `qty`
/// whenever it does not.
pub proof fn law_round_trip_exact(in_liq: nat, qty: nat, paid: nat, fee: nat, back_liq: nat)
    requires
        fee < 1000,
        back_liq > 0 || paid > 0,
    ensures
        price_with_fee(in_liq + qty, back_liq, paid, fee) <= qty <==> in_liq * paid * keep_rate(fee)
            < 1000 * (qty + 1) * back_liq + paid * keep_rate(fee),
{
    let f = keep_rate(fee);
    let n = (in_liq + qty) * paid * f;
    let d = back_liq * 1000 + paid * f;
    let c = n / d;
    lemma_denominators_agree(back_liq, paid, fee);
    assert(c * d <= n < (c + 1) * d) by (nonlinear_arith)
        requires
            c == n / d,
            d > 0,
    ;
    assert(c <= qty ==> (c + 1) * d <= (qty + 1) * d) by (nonlinear_arith)
        requires
            d > 0,
    ;
    assert(c > qty ==> c * d >= (qty + 1) * d) by (nonlinear_arith)
        requires
            d > 0,
    ;
    assert((qty + 1) * d - n == 1000 * (qty + 1) * back_liq + paid * f - in_liq * paid * f)
        by (nonlinear_arith)
        requires
            n == (in_liq + qty) * paid * f,
            d == back_liq * 1000 + paid * f,
    ;
}

/// Selling back returns no more than was paid in whenever
/// `in_liq * paid * keep_rate(fee) <= 1000 * qty * back_liq`. Where this fails
/// the bound can fail too; [`law_round_trip_exact`] says exactly when.
pub proof fn law_round_trip(in_liq: nat, qty: nat, paid: nat, fee: nat, back_liq: nat)
    requires
        fee < 1000,
        back_liq > 0 || paid > 0,
        in_liq * paid * keep_rate(fee) <= 1000 * qty * back_liq,
    ensures
        price_with_fee(in_liq + qty, back_liq, paid, fee) <= qty,
{
    let f = keep_rate(fee);
    lemma_denominators_agree(back_liq, paid, fee);
    assert(1000 * qty * back_liq < 1000 * (qty + 1) * back_liq + paid * f) by (nonlinear_arith)
        requires
            back_liq * 1000 + paid * f > 0,
    ;
    law_round_trip_exact(in_liq, qty, paid, fee, back_liq);
}

/// What a swap pays meets the condition of [`law_round_trip`] against every
/// output balance that is at least what the swap itself left, that is, as long
/// as the correction has taken nothing out of that balance.
pub proof fn law_swap_meets_round_trip_condition(
    in_liq: nat,
    out_liq: nat,
    out_earn: nat,
    fee: nat,
    qty: nat,
    back_liq: nat,
)
    requires
        fee < 1000,
        in_liq > 0,
        out_liq > 0,
        back_liq >= trade_uncorrected(in_liq, out_liq, out_earn, fee, qty).out_liq,
    ensures
        back_liq > 0,
        in_liq * trade_uncorrected(in_liq, out_liq, out_earn, fee, qty).paid * keep_rate(fee)
            <= 1000 * qty * back_liq,
{
    let f = keep_rate(fee);
    let paid = price_with_fee(out_liq, in_liq, qty, fee);
    let gross = price_without_fee(out_liq, in_liq, qty);
    let left = (out_liq - gross) as nat;
    let total = in_liq + qty;
    lemma_denominators_agree(in_liq, qty, fee);
    lemma_fee_lowers_price(out_liq, in_liq, qty, fee);
    lemma_gross_below_liquidity(out_liq, in_liq, qty);
    let n = out_liq * 1000 * qty;
    let d = in_liq * 1000 + qty * 1000;
    assert(gross * d <= n) by (nonlinear_arith)
        requires
            gross == n / d,
            d > 0,
    ;
    assert(gross * total <= out_liq * qty) by (nonlinear_arith)
        requires
            gross * d <= n,
            n == out_liq * 1000 * qty,
            d == in_liq * 1000 + qty * 1000,
            total == in_liq + qty,
    ;
    let p = paid * total;
    assert(p <= out_liq * qty) by (nonlinear_arith)
        requires
            p == paid * total,
            paid <= gross,
            gross * total <= out_liq * qty,
    ;
    let q = left * total;
    assert(q >= out_liq * in_liq) by (nonlinear_arith)
        requires
            q == left * total,
            left == out_liq - gross,
            total == in_liq + qty,
            gross * total <= out_liq * qty,
    ;
    assert(in_liq * f * p <= 1000 * qty * q) by (nonlinear_arith)
        requires
            p <= out_liq * qty,
            q >= out_liq * in_liq,
            f <= 1000,
    ;
    assert(in_liq * paid * f <= 1000 * qty * left) by (nonlinear_arith)
        requires
            in_liq * f * p <= 1000 * qty * q,
            p == paid * total,
            q == left * total,
            total > 0,
    ;
    assert(1000 * qty * left <= 1000 * qty * back_liq) by (nonlinear_arith)
        requires
            left <= back_liq,
    ;
}

/// A round trip through the ledger: EGLD is swapped for token and the token
/// received is swapped back. The second swap quotes, and if accepted pays, no
/// more EGLD than the first took in exactly when the stated inequality holds
/// between the EGLD balance before the first swap, the token paid and the
/// token balance after it. The inequality holds in particular when
/// `s.egld * paid * keep_rate(fee) <= 1000 * qty * s1.token`, and that in turn
/// whenever the correction of the first swap took no token out of the pool.
/// When the correction did take token out, the inequality and with it the
/// bound can fail.
pub proof fn law_round_trip_from_egld(s: PairState, qty: nat)
    requires
        s.valid(),
        s.egld_to_token(Asset::Egld, qty) is Ok,
    ensures
        ({
            let (s1, paid) = s.egld_to_token(Asset::Egld, qty).unwrap();
            let exact = s.egld * paid * keep_rate(s.fee) < 1000 * (qty + 1) * s1.token + paid
                * keep_rate(s.fee);
            let enough = s.egld * paid * keep_rate(s.fee) <= 1000 * qty * s1.token;
            let not_lowered = s1.token >= s.token - s.price_egld_token_no_fee(qty);
            &&& s1.token > 0 || paid > 0 ==> (s1.price_token_egld(paid) <= qty <==> exact)
            &&& s1.token_to_egld(Asset::Token, paid) is Ok ==> (s1.token_to_egld(
                Asset::Token,
                paid,
            ).unwrap().1 <= qty <==> exact)
            &&& enough && (s1.token > 0 || paid > 0) ==> exact
            &&& not_lowered ==> enough && s1.token > 0
        }),
{
    let (s1, paid) = s.egld_to_token(Asset::Egld, qty).unwrap();
    let f = keep_rate(s.fee);
    lemma_gross_below_liquidity(s.token, s.egld, qty);
    if s1.token > 0 || paid > 0 {
        law_round_trip_exact(s.egld, qty, paid, s.fee, s1.token);
        if s.egld * paid * f <= 1000 * qty * s1.token {
            law_round_trip(s.egld, qty, paid, s.fee, s1.token);
        }
    }
    if s1.token >= s.token - s.price_egld_token_no_fee(qty) {
        law_swap_meets_round_trip_condition(s.egld, s.token, s.earn_token, s.fee, qty, s1.token);
    }
}

/// The same round trip started with token, with the roles of the two assets
/// exchanged.
pub proof fn law_round_trip_from_token(s: PairState, qty: nat)
    requires
        s.valid(),
        s.token_to_egld(Asset::Token, qty) is Ok,
    ensures
        ({
            let (s1, paid) = s.token_to_egld(Asset::Token, qty).unwrap();
            let exact = s.token * paid * keep_rate(s.fee) < 1000 * (qty + 1) * s1.egld + paid
                * keep_rate(s.fee);
            let enough = s.token * paid * keep_rate(s.fee) <= 1000 * qty * s1.egld;
            let not_lowered = s1.egld >= s.egld - s.price_token_egld_no_fee(qty);
            &&& s1.egld > 0 || paid > 0 ==> (s1.price_egld_token(paid) <= qty <==> exact)
            &&& s1.egld_to_token(Asset::Egld, paid) is Ok ==> (s1.egld_to_token(
                Asset::Egld,
                paid,
            ).unwrap().1 <= qty <==> exact)
            &&& enough && (s1.egld > 0 || paid > 0) ==> exact
            &&& not_lowered ==> enough && s1.egld > 0
        }),
{
    let (s1, paid) = s.token_to_egld(Asset::Token, qty).unwrap();
    let f = keep_rate(s.fee);
    lemma_gross_below_liquidity(s.egld, s.token, qty);
    if s1.egld > 0 || paid > 0 {
        law_round_trip_exact(s.token, qty, paid, s.fee, s1.egld);
        if s.token * paid * f <= 1000 * qty * s1.egld {
            law_round_trip(s.token, qty, paid, s.fee, s1.egld);
        }
    }
    if s1.egld >= s.egld - s.price_token_egld_no_fee(qty) {
        law_swap_meets_round_trip_condition(s.token, s.egld, s.earn_egld, s.fee, qty, s1.egld);
    }
}

} // verus!
