//! The ledger of one trading pair: a token against the native coin (EGLD).
//!
//! [`PairState`] is the state of the pair as plain numbers; the rule of every
//! operation is a function on it. [`TestDEX`] is the executable ledger; each of
//! its operations is proved to follow the rule of the same name.
//!
//! Who calls and what was paid is decided outside: operations reserved to the
//! owner take `by_owner`, operations that receive a payment take the kind of
//! asset that was attached and its quantity. Amounts returned by an operation
//! are what the caller has to transfer to the recipient.

use crate::amount::Amount;
use crate::pricing::{
    fee_amount, fee_denominator, fee_numerator, lemma_denominators_agree, price_with_fee,
    price_without_fee, quote_denominator, quote_fee, quote_numerator, quote_skew,
    quote_with_fee, quote_without_fee, skew_ratio,
};
use crate::swap::{settle, trade};
use vstd::prelude::*;

verus! {

/// Lifecycle phase of the pair: trading opens once both sides hold liquidity.
#[derive(Clone, Copy, Debug, PartialEq, Eq, Structural)]
pub enum Status {
    Funding,
    Successful,
}

/// The two assets of the pair.
#[derive(Clone, Copy, Debug, PartialEq, Eq, Structural)]
pub enum Asset {
    /// The native coin.
    Egld,
    /// The traded token.
    Token,
}

/// Why an operation was rejected. A rejected operation changes nothing.
#[derive(Clone, Copy, Debug, PartialEq, Eq, Structural)]
pub enum DexError {
    /// An operation reserved to the owner was called by someone else.
    Unauthorized,
    /// A deposit was made after both sides were funded.
    PairAlreadyFunded,
    /// A swap was attempted before both sides were funded.
    PairStillFunding,
    /// The correction of the product would take more than the output balance
    /// or the output earnings hold. Such a swap is refused as a whole; the
    /// correction is never applied in part.
    InsufficientLiquidity,
    /// The asset attached to the call is not the one the operation takes.
    AssetMismatch,
}

/// The state of the pair as plain numbers.
pub struct PairState {
    /// Fee in thousandths.
    pub fee: nat,
    /// Token held by the pool.
    pub token: nat,
    /// EGLD held by the pool.
    pub egld: nat,
    /// Product of the two balances at the moment the pair first became
    /// funded; zero until then.
    pub initial_k: nat,
    /// Fees accrued in token.
    pub earn_token: nat,
    /// Fees accrued in EGLD.
    pub earn_egld: nat,
}

impl PairState {
    /// The fee leaves part of every payment in the trade.
    pub open spec fn valid(self) -> bool {
        self.fee < 1000
    }

    /// The state right after construction.
    pub open spec fn start(fee: nat) -> PairState {
        PairState { fee, token: 0, egld: 0, initial_k: 0, earn_token: 0, earn_egld: 0 }
    }

    /// `Successful` exactly when both balances are positive.
    pub open spec fn status(self) -> Status {
        if self.egld > 0 && self.token > 0 {
            Status::Successful
        } else {
            Status::Funding
        }
    }

    /// The current product of the two balances.
    pub open spec fn calculate_k(self) -> nat {
        self.egld * self.token
    }

    /// Freezes the product when the pair is funded for the first time. A
    /// product once frozen is never replaced: a pair that was drained and is
    /// funded again keeps the product of its first funding.
    pub open spec fn frozen(self) -> PairState {
        if self.status() == Status::Successful && self.initial_k == 0 {
            PairState { initial_k: self.calculate_k(), ..self }
        } else {
            self
        }
    }

    /// Deposit of token by the owner while the pair is funding.
    pub open spec fn add_liquidity_token(self, by_owner: bool, asset: Asset, payment: nat) -> Result<
        PairState,
        DexError,
    > {
        if !by_owner {
            Err(DexError::Unauthorized)
        } else if asset != Asset::Token {
            Err(DexError::AssetMismatch)
        } else if self.status() != Status::Funding {
            Err(DexError::PairAlreadyFunded)
        } else {
            Ok(PairState { token: self.token + payment, ..self }.frozen())
        }
    }

    /// Deposit of EGLD by the owner while the pair is funding.
    pub open spec fn add_liquidity_egld(self, by_owner: bool, asset: Asset, payment: nat) -> Result<
        PairState,
        DexError,
    > {
        if !by_owner {
            Err(DexError::Unauthorized)
        } else if asset != Asset::Egld {
            Err(DexError::AssetMismatch)
        } else if self.status() != Status::Funding {
            Err(DexError::PairAlreadyFunded)
        } else {
            Ok(PairState { egld: self.egld + payment, ..self }.frozen())
        }
    }

    /// Withdrawal of the whole token balance by the owner.
    pub open spec fn claim_liquidity_token(self, by_owner: bool) -> Result<
        (PairState, nat),
        DexError,
    > {
        if !by_owner {
            Err(DexError::Unauthorized)
        } else {
            Ok((PairState { token: 0, ..self }, self.token))
        }
    }

    /// Withdrawal of the whole EGLD balance by the owner.
    pub open spec fn claim_liquidity_egld(self, by_owner: bool) -> Result<
        (PairState, nat),
        DexError,
    > {
        if !by_owner {
            Err(DexError::Unauthorized)
        } else {
            Ok((PairState { egld: 0, ..self }, self.egld))
        }
    }

    /// Withdrawal by the owner of all fees accrued in `asset`.
    pub open spec fn claim_earnings(self, by_owner: bool, asset: Asset) -> Result<
        (PairState, nat),
        DexError,
    > {
        if !by_owner {
            Err(DexError::Unauthorized)
        } else if asset == Asset::Token {
            Ok((PairState { earn_token: 0, ..self }, self.earn_token))
        } else {
            Ok((PairState { earn_egld: 0, ..self }, self.earn_egld))
        }
    }

    /// Token bought by `qty` EGLD, fee deducted.
    pub open spec fn price_egld_token(self, qty: nat) -> nat {
        price_with_fee(self.token, self.egld, qty, self.fee)
    }

    /// Token bought by `qty` EGLD at no fee.
    pub open spec fn price_egld_token_no_fee(self, qty: nat) -> nat {
        price_without_fee(self.token, self.egld, qty)
    }

    /// Fee, in token, on a payment of `qty` EGLD.
    pub open spec fn fee_egld_token(self, qty: nat) -> nat {
        fee_amount(self.token, self.egld, qty, self.fee)
    }

    /// EGLD bought by `qty` token, fee deducted.
    pub open spec fn price_token_egld(self, qty: nat) -> nat {
        price_with_fee(self.egld, self.token, qty, self.fee)
    }

    /// EGLD bought by `qty` token at no fee.
    pub open spec fn price_token_egld_no_fee(self, qty: nat) -> nat {
        price_without_fee(self.egld, self.token, qty)
    }

    /// Fee, in EGLD, on a payment of `qty` token.
    pub open spec fn fee_token_egld(self, qty: nat) -> nat {
        fee_amount(self.egld, self.token, qty, self.fee)
    }

    /// The larger balance divided by the smaller, at least 1.
    pub open spec fn ratio(self) -> nat {
        skew_ratio(self.token, self.egld)
    }

    /// Swap of `payment` EGLD for token: the next state and the token owed to
    /// the trader.
    pub open spec fn egld_to_token(self, asset: Asset, payment: nat) -> Result<
        (PairState, nat),
        DexError,
    > {
        if asset != Asset::Egld {
            Err(DexError::AssetMismatch)
        } else if self.status() != Status::Successful {
            Err(DexError::PairStillFunding)
        } else {
            match trade(self.egld, self.token, self.earn_token, self.initial_k, self.fee, payment) {
                Some(t) => Ok(
                    (
                        PairState { egld: t.in_liq, token: t.out_liq, earn_token: t.out_earn, ..self },
                        t.paid,
                    ),
                ),
                None => Err(DexError::InsufficientLiquidity),
            }
        }
    }

    /// Swap of `payment` token for EGLD: the next state and the EGLD owed to
    /// the trader.
    pub open spec fn token_to_egld(self, asset: Asset, payment: nat) -> Result<
        (PairState, nat),
        DexError,
    > {
        if asset != Asset::Token {
            Err(DexError::AssetMismatch)
        } else if self.status() != Status::Successful {
            Err(DexError::PairStillFunding)
        } else {
            match trade(self.token, self.egld, self.earn_egld, self.initial_k, self.fee, payment) {
                Some(t) => Ok(
                    (
                        PairState { token: t.in_liq, egld: t.out_liq, earn_egld: t.out_earn, ..self },
                        t.paid,
                    ),
                ),
                None => Err(DexError::InsufficientLiquidity),
            }
        }
    }
}

/// The executable ledger of one pair.
#[derive(Debug)]
pub struct TestDEX {
    fee: u32,
    liquidity_token: Amount,
    liquidity_egld: Amount,
    initial_k: Amount,
    earnings_token: Amount,
    earnings_egld: Amount,
}

impl View for TestDEX {
    type V = PairState;

    closed spec fn view(&self) -> PairState {
        PairState {
            fee: self.fee as nat,
            token: self.liquidity_token@,
            egld: self.liquidity_egld@,
            initial_k: self.initial_k@,
            earn_token: self.earnings_token@,
            earn_egld: self.earnings_egld@,
        }
    }
}

impl TestDEX {
    /// An empty pair with the given fee in thousandths.
    pub fn init(fee: u32) -> (dex: TestDEX)
        requires
            fee < 1000,
        ensures
            dex@ == PairState::start(fee as nat),
    {
        TestDEX {
            fee,
            liquidity_token: Amount::zero(),
            liquidity_egld: Amount::zero(),
            initial_k: Amount::zero(),
            earnings_token: Amount::zero(),
            earnings_egld: Amount::zero(),
        }
    }

    /// The ledger that holds the given balances, as read back from where they
    /// are kept between calls.
    pub fn from_parts(
        fee: u32,
        liquidity_token: Amount,
        liquidity_egld: Amount,
        initial_k: Amount,
        earnings_token: Amount,
        earnings_egld: Amount,
    ) -> (dex: TestDEX)
        requires
            fee < 1000,
        ensures
            dex@ == (PairState {
                fee: fee as nat,
                token: liquidity_token@,
                egld: liquidity_egld@,
                initial_k: initial_k@,
                earn_token: earnings_token@,
                earn_egld: earnings_egld@,
            }),
    {
        TestDEX {
            fee,
            liquidity_token,
            liquidity_egld,
            initial_k,
            earnings_token,
            earnings_egld,
        }
    }

    /// Freezes the product if this deposit funded the pair for the first time.
    fn freeze_if_funded(&mut self)
        ensures
            final(self)@ == old(self)@.frozen(),
    {
        match self.status() {
            Status::Successful => {
                if self.initial_k.is_zero() {
                    self.initial_k = self.calculate_k();
                }
            },
            Status::Funding => {},
        }
    }

    /// Deposits `payment` token. Only the owner may deposit, the payment must be
    /// in token, and the pair must still be funding. The deposit that makes both
    /// balances positive for the first time freezes their product as the
    /// reference of all later swaps; no later deposit replaces it.
    pub fn add_liquidity_token(&mut self, by_owner: bool, asset: Asset, payment: &Amount) -> (r:
        Result<(), DexError>)
        ensures
            match old(self)@.add_liquidity_token(by_owner, asset, payment@) {
                Ok(next) => r.is_ok() && final(self)@ == next,
                Err(e) => r == Err::<(), DexError>(e) && final(self)@ == old(self)@,
            },
    {
        if !by_owner {
            return Err(DexError::Unauthorized);
        }
        match asset {
            Asset::Token => {},
            Asset::Egld => {
                return Err(DexError::AssetMismatch);
            },
        }
        match self.status() {
            Status::Funding => {},
            Status::Successful => {
                return Err(DexError::PairAlreadyFunded);
            },
        }
        self.liquidity_token = self.liquidity_token.plus(payment);
        self.freeze_if_funded();
        Ok(())
    }

    /// Withdraws the whole token balance to the owner. Returns the quantity to
    /// send, which is zero when there is nothing to withdraw.
    pub fn claim_liquidity_token(&mut self, by_owner: bool) -> (r: Result<Amount, DexError>)
        ensures
            match old(self)@.claim_liquidity_token(by_owner) {
                Ok((next, funds)) => r.is_ok() && r.unwrap()@ == funds && final(self)@ == next,
                Err(e) => r matches Err(x) && x == e && final(self)@ == old(self)@,
            },
    {
        if !by_owner {
            return Err(DexError::Unauthorized);
        }
        let funds = self.liquidity_token.duplicate();
        self.liquidity_token = Amount::zero();
        Ok(funds)
    }

    /// Deposits `payment` EGLD, under the same rules as a deposit of token.
    pub fn add_liquidity_egld(&mut self, by_owner: bool, asset: Asset, payment: &Amount) -> (r:
        Result<(), DexError>)
        ensures
            match old(self)@.add_liquidity_egld(by_owner, asset, payment@) {
                Ok(next) => r.is_ok() && final(self)@ == next,
                Err(e) => r == Err::<(), DexError>(e) && final(self)@ == old(self)@,
            },
    {
        if !by_owner {
            return Err(DexError::Unauthorized);
        }
        match asset {
            Asset::Egld => {},
            Asset::Token => {
                return Err(DexError::AssetMismatch);
            },
        }
        match self.status() {
            Status::Funding => {},
            Status::Successful => {
                return Err(DexError::PairAlreadyFunded);
            },
        }
        self.liquidity_egld = self.liquidity_egld.plus(payment);
        self.freeze_if_funded();
        Ok(())
    }

    /// Withdraws the whole EGLD balance to the owner.
    pub fn claim_liquidity_egld(&mut self, by_owner: bool) -> (r: Result<Amount, DexError>)
        ensures
            match old(self)@.claim_liquidity_egld(by_owner) {
                Ok((next, funds)) => r.is_ok() && r.unwrap()@ == funds && final(self)@ == next,
                Err(e) => r matches Err(x) && x == e && final(self)@ == old(self)@,
            },
    {
        if !by_owner {
            return Err(DexError::Unauthorized);
        }
        let funds = self.liquidity_egld.duplicate();
        self.liquidity_egld = Amount::zero();
        Ok(funds)
    }

    /// The phase of the pair, derived from the two balances.
    pub fn status(&self) -> (r: Status)
        ensures
            r == self@.status(),
    {
        if !self.liquidity_egld.is_zero() && !self.liquidity_token.is_zero() {
            Status::Successful
        } else {
            Status::Funding
        }
    }

    /// The current product of the two balances.
    pub fn calculate_k(&self) -> (r: Amount)
        ensures
            r@ == self@.calculate_k(),
    {
        self.liquidity_egld.times(&self.liquidity_token)
    }

    /// Withdraws all fees accrued in `asset` to the owner. Returns the quantity
    /// to send, which is zero when nothing has accrued.
    pub fn claim_earnings(&mut self, by_owner: bool, asset: Asset) -> (r: Result<Amount, DexError>)
        ensures
            match old(self)@.claim_earnings(by_owner, asset) {
                Ok((next, funds)) => r.is_ok() && r.unwrap()@ == funds && final(self)@ == next,
                Err(e) => r matches Err(x) && x == e && final(self)@ == old(self)@,
            },
    {
        if !by_owner {
            return Err(DexError::Unauthorized);
        }
        match asset {
            Asset::Token => {
                let funds = self.earnings_token.duplicate();
                self.earnings_token = Amount::zero();
                Ok(funds)
            },
            Asset::Egld => {
                let funds = self.earnings_egld.duplicate();
                self.earnings_egld = Amount::zero();
                Ok(funds)
            },
        }
    }

    /// Token bought by `qty` EGLD, fee deducted.
    pub fn price_egld_token(&self, qty: &Amount) -> (r: Amount)
        requires
            self@.valid(),
            self@.egld > 0 || qty@ > 0,
        ensures
            r@ == self@.price_egld_token(qty@),
    {
        proof {
            lemma_denominators_agree(self@.egld, qty@, self@.fee);
        }
        quote_with_fee(&self.liquidity_token, &self.liquidity_egld, qty, self.fee)
    }

    /// Token bought by `qty` EGLD at no fee.
    pub fn price_egld_token_no_fee(&self, qty: &Amount) -> (r: Amount)
        requires
            self@.egld > 0 || qty@ > 0,
        ensures
            r@ == self@.price_egld_token_no_fee(qty@),
    {
        quote_without_fee(&self.liquidity_token, &self.liquidity_egld, qty)
    }

    /// Fee, in token, on a payment of `qty` EGLD: the quote at no fee less the
    /// quote with fee.
    pub fn fee_egld_token(&self, qty: &Amount) -> (r: Amount)
        requires
            self@.valid(),
            self@.egld > 0 || qty@ > 0,
        ensures
            r@ == self@.fee_egld_token(qty@),
            r@ + self@.price_egld_token(qty@) == self@.price_egld_token_no_fee(qty@),
    {
        proof {
            lemma_denominators_agree(self@.egld, qty@, self@.fee);
            crate::pricing::lemma_fee_lowers_price(self@.token, self@.egld, qty@, self@.fee);
        }
        quote_fee(&self.liquidity_token, &self.liquidity_egld, qty, self.fee)
    }

    /// EGLD bought by `qty` token, fee deducted.
    pub fn price_token_egld(&self, qty: &Amount) -> (r: Amount)
        requires
            self@.valid(),
            self@.token > 0 || qty@ > 0,
        ensures
            r@ == self@.price_token_egld(qty@),
    {
        proof {
            lemma_denominators_agree(self@.token, qty@, self@.fee);
        }
        quote_with_fee(&self.liquidity_egld, &self.liquidity_token, qty, self.fee)
    }

    /// Numerator of [`TestDEX::price_token_egld`].
    pub fn price_token_egld_numerator(&self, qty: &Amount) -> (r: Amount)
        requires
            self@.valid(),
        ensures
            r@ == fee_numerator(self@.egld, qty@, self@.fee),
    {
        quote_numerator(&self.liquidity_egld, qty, self.fee)
    }

    /// Denominator of [`TestDEX::price_token_egld`].
    pub fn price_token_egld_denominator(&self, qty: &Amount) -> (r: Amount)
        requires
            self@.valid(),
        ensures
            r@ == fee_denominator(self@.token, qty@, self@.fee),
    {
        quote_denominator(&self.liquidity_token, qty, self.fee)
    }

    /// EGLD bought by `qty` token at no fee.
    pub fn price_token_egld_no_fee(&self, qty: &Amount) -> (r: Amount)
        requires
            self@.token > 0 || qty@ > 0,
        ensures
            r@ == self@.price_token_egld_no_fee(qty@),
    {
        quote_without_fee(&self.liquidity_egld, &self.liquidity_token, qty)
    }

    /// Fee, in EGLD, on a payment of `qty` token.
    pub fn fee_token_egld(&self, qty: &Amount) -> (r: Amount)
        requires
            self@.valid(),
            self@.token > 0 || qty@ > 0,
        ensures
            r@ == self@.fee_token_egld(qty@),
            r@ + self@.price_token_egld(qty@) == self@.price_token_egld_no_fee(qty@),
    {
        proof {
            lemma_denominators_agree(self@.token, qty@, self@.fee);
            crate::pricing::lemma_fee_lowers_price(self@.egld, self@.token, qty@, self@.fee);
        }
        quote_fee(&self.liquidity_egld, &self.liquidity_token, qty, self.fee)
    }

    /// The larger balance divided by the smaller, rounded down and at least 1.
    pub fn ratio(&self) -> (r: Amount)
        requires
            self@.status() == Status::Successful,
        ensures
            r@ == self@.ratio(),
    {
        quote_skew(&self.liquidity_token, &self.liquidity_egld)
    }

    /// Swaps `payment` EGLD for token. Returns the token to send to the trader.
    /// The swap is rejected, with nothing changed, when the payment is not in
    /// EGLD, when the pair is still funding, or when the correction of the
    /// product cannot be booked.
    pub fn egld_to_token(&mut self, asset: Asset, payment: &Amount) -> (r: Result<Amount, DexError>)
        requires
            old(self)@.valid(),
        ensures
            match old(self)@.egld_to_token(asset, payment@) {
                Ok((next, paid)) => r.is_ok() && r.unwrap()@ == paid && final(self)@ == next,
                Err(e) => r matches Err(x) && x == e && final(self)@ == old(self)@,
            },
    {
        match asset {
            Asset::Egld => {},
            Asset::Token => {
                return Err(DexError::AssetMismatch);
            },
        }
        match self.status() {
            Status::Successful => {},
            Status::Funding => {
                return Err(DexError::PairStillFunding);
            },
        }
        match settle(
            &self.liquidity_egld,
            &self.liquidity_token,
            &self.earnings_token,
            &self.initial_k,
            self.fee,
            payment,
        ) {
            Some(done) => {
                self.liquidity_egld = done.in_liq;
                self.liquidity_token = done.out_liq;
                self.earnings_token = done.out_earn;
                Ok(done.paid)
            },
            None => Err(DexError::InsufficientLiquidity),
        }
    }

    /// Swaps `payment` token for EGLD. Returns the EGLD to send to the trader.
    /// The swap is rejected, with nothing changed, when the payment is not in
    /// token, when the pair is still funding, or when the correction of the
    /// product cannot be booked.
    pub fn token_to_egld(&mut self, asset: Asset, payment: &Amount) -> (r: Result<Amount, DexError>)
        requires
            old(self)@.valid(),
        ensures
            match old(self)@.token_to_egld(asset, payment@) {
                Ok((next, paid)) => r.is_ok() && r.unwrap()@ == paid && final(self)@ == next,
                Err(e) => r matches Err(x) && x == e && final(self)@ == old(self)@,
            },
    {
        match asset {
            Asset::Token => {},
            Asset::Egld => {
                return Err(DexError::AssetMismatch);
            },
        }
        match self.status() {
            Status::Successful => {},
            Status::Funding => {
                return Err(DexError::PairStillFunding);
            },
        }
        match settle(
            &self.liquidity_token,
            &self.liquidity_egld,
            &self.earnings_egld,
            &self.initial_k,
            self.fee,
            payment,
        ) {
            Some(done) => {
                self.liquidity_token = done.in_liq;
                self.liquidity_egld = done.out_liq;
                self.earnings_egld = done.out_earn;
                Ok(done.paid)
            },
            None => Err(DexError::InsufficientLiquidity),
        }
    }

    /// Token held by the pool.
    pub fn liquidity_token(&self) -> (r: Amount)
        ensures
            r@ == self@.token,
    {
        self.liquidity_token.duplicate()
    }

    /// EGLD held by the pool.
    pub fn liquidity_egld(&self) -> (r: Amount)
        ensures
            r@ == self@.egld,
    {
        self.liquidity_egld.duplicate()
    }

    /// The frozen product: zero until the pair is funded for the first time,
    /// the product of the two balances at that moment ever after.
    pub fn initial_k(&self) -> (r: Amount)
        ensures
            r@ == self@.initial_k,
    {
        self.initial_k.duplicate()
    }

    /// The fee in thousandths.
    pub fn fee(&self) -> (r: u32)
        ensures
            r == self@.fee,
    {
        self.fee
    }

    /// Fees accrued in `asset`.
    pub fn earnings(&self, asset: Asset) -> (r: Amount)
        ensures
            r@ == (if asset == Asset::Token {
                self@.earn_token
            } else {
                self@.earn_egld
            }),
    {
        match asset {
            Asset::Token => self.earnings_token.duplicate(),
            Asset::Egld => self.earnings_egld.duplicate(),
        }
    }
}

} // verus!
