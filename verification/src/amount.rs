//! Unbounded unsigned quantities.
//!
//! An [`Amount`] stores a natural number as base-2^32 digits, least significant
//! first. Addition, subtraction, multiplication, division and comparison are
//! done by `num_bigint::BigUint`. The five private functions that call it are
//! the only unproved part of this crate: each builds its operands with
//! `BigUint::new`, which reads digits in this order, and reads the result back
//! with `BigUint::to_u32_digits`, which writes them in the same order. What is
//! assumed of each call is said above it. Conversions to and from machine
//! integers, digits and bytes are proved here.

use num_bigint::BigUint;
use vstd::prelude::*;
use vstd::std_specs::cmp::PartialEqSpecImpl;

verus! {

/// The natural number written by `digits` in base 2^32, least significant digit
/// first. Trailing zero digits do not change the value.
pub open spec fn digits_value(digits: Seq<u32>) -> nat
    decreases digits.len(),
{
    if digits.len() == 0 {
        0
    } else {
        digits[0] as nat + 4294967296 * digits_value(digits.drop_first())
    }
}

/// The natural number written by `bytes` in base 256, most significant byte
/// first. Leading zero bytes do not change the value.
pub open spec fn bytes_be_value(bytes: Seq<u8>) -> nat
    decreases bytes.len(),
{
    if bytes.len() == 0 {
        0
    } else {
        256 * bytes_be_value(bytes.drop_last()) + bytes.last() as nat
    }
}

/// The value splits into the two lowest digits and the rest, which counts
/// in units of 2^64.
pub proof fn lemma_low_digits(digits: Seq<u32>)
    ensures
        digits.len() == 0 ==> digits_value(digits) == 0,
        digits.len() == 1 ==> digits_value(digits) == digits[0],
        digits.len() >= 2 ==> digits_value(digits) == digits[0] + 4294967296 * digits[1]
            + 18446744073709551616 * digits_value(digits.skip(2)),
{
    reveal_with_fuel(digits_value, 3);
    if digits.len() >= 2 {
        assert(digits.drop_first().drop_first() =~= digits.skip(2));
    }
}

/// Unproved: `BigUint::new` reads little-endian base-2^32 digits, `+` on
/// `BigUint` is exact addition, and `to_u32_digits` writes the sum back in the
/// same digit order.
#[verifier::external_body]
fn digits_sum(a: &Vec<u32>, b: &Vec<u32>) -> (r: Vec<u32>)
    ensures
        digits_value(r@) == digits_value(a@) + digits_value(b@),
{
    (BigUint::new(a.clone()) + BigUint::new(b.clone())).to_u32_digits()
}

/// Unproved: `-` on `BigUint` is exact subtraction whenever the right operand
/// does not exceed the left one (it panics otherwise, hence the precondition).
/// Digits are read and written as in [`digits_sum`].
#[verifier::external_body]
fn digits_difference(a: &Vec<u32>, b: &Vec<u32>) -> (r: Vec<u32>)
    requires
        digits_value(b@) <= digits_value(a@),
    ensures
        digits_value(r@) == digits_value(a@) - digits_value(b@),
{
    (BigUint::new(a.clone()) - BigUint::new(b.clone())).to_u32_digits()
}

/// Unproved: `*` on `BigUint` is exact multiplication. Digits are read and
/// written as in [`digits_sum`].
#[verifier::external_body]
fn digits_product(a: &Vec<u32>, b: &Vec<u32>) -> (r: Vec<u32>)
    ensures
        digits_value(r@) == digits_value(a@) * digits_value(b@),
{
    (BigUint::new(a.clone()) * BigUint::new(b.clone())).to_u32_digits()
}

/// Unproved: `/` on `BigUint` is floor division for a non-zero divisor (it
/// panics on a zero divisor, hence the precondition). Digits are read and
/// written as in [`digits_sum`].
#[verifier::external_body]
fn digits_quotient(a: &Vec<u32>, b: &Vec<u32>) -> (r: Vec<u32>)
    requires
        digits_value(b@) > 0,
    ensures
        digits_value(r@) == digits_value(a@) / digits_value(b@),
{
    (BigUint::new(a.clone()) / BigUint::new(b.clone())).to_u32_digits()
}

/// Unproved: `<=` on `BigUint` compares the numbers that the digits denote,
/// read by `BigUint::new` as in [`digits_sum`].
#[verifier::external_body]
fn digits_at_most(a: &Vec<u32>, b: &Vec<u32>) -> (r: bool)
    ensures
        r == (digits_value(a@) <= digits_value(b@)),
{
    BigUint::new(a.clone()) <= BigUint::new(b.clone())
}

/// Appending a byte shifts the value by one place and adds the byte.
pub proof fn lemma_push_byte(bytes: Seq<u8>, byte: u8)
    ensures
        bytes_be_value(bytes.push(byte)) == 256 * bytes_be_value(bytes) + byte,
{
    assert(bytes.push(byte).drop_last() =~= bytes);
}

/// An unsigned integer of unbounded size.
#[derive(Debug)]
pub struct Amount {
    digits: Vec<u32>,
}

impl View for Amount {
    type V = nat;

    closed spec fn view(&self) -> nat {
        digits_value(self.digits@)
    }
}

impl PartialEq for Amount {
    /// Two amounts are equal when they denote the same number.
    fn eq(&self, other: &Amount) -> (r: bool) {
        self.same(other)
    }
}

impl PartialEqSpecImpl for Amount {
    open spec fn obeys_eq_spec() -> bool {
        true
    }

    open spec fn eq_spec(&self, other: &Amount) -> bool {
        self@ == other@
    }
}

impl Amount {
    /// The amount zero.
    pub fn zero() -> (r: Amount)
        ensures
            r@ == 0,
    {
        Amount { digits: Vec::new() }
    }

    /// The amount denoted by little-endian base-2^32 digits.
    pub fn from_digits(digits: Vec<u32>) -> (r: Amount)
        ensures
            r@ == digits_value(digits@),
    {
        Amount { digits }
    }

    /// Little-endian base-2^32 digits that denote this amount.
    pub fn to_digits(&self) -> (r: Vec<u32>)
        ensures
            digits_value(r@) == self@,
    {
        let digits = self.digits.clone();
        assert(digits@ =~= self.digits@);
        digits
    }

    /// The amount equal to `n`.
    pub fn from_u64(n: u64) -> (r: Amount)
        ensures
            r@ == n,
    {
        let low: u32 = (n % 4294967296) as u32;
        let high: u32 = (n / 4294967296) as u32;
        let mut digits: Vec<u32> = Vec::new();
        digits.push(low);
        digits.push(high);
        proof {
            reveal_with_fuel(digits_value, 3);
            assert(digits@.drop_first() =~= seq![high]);
            assert(digits@.drop_first().drop_first() =~= Seq::<u32>::empty());
        }
        Amount { digits }
    }

    /// The amount written by big-endian `bytes`.
    pub fn from_bytes_be(bytes: &[u8]) -> (r: Amount)
        ensures
            r@ == bytes_be_value(bytes@),
    {
        let base = Amount::from_u64(256);
        let mut value = Amount::zero();
        let mut i: usize = 0;
        while i < bytes.len()
            invariant
                i <= bytes.len(),
                base@ == 256,
                value@ == bytes_be_value(bytes@.take(i as int)),
            decreases bytes.len() - i,
        {
            let byte = Amount::from_u64(bytes[i] as u64);
            value = value.times(&base).plus(&byte);
            proof {
                let next = bytes@.take(i + 1);
                assert(next.drop_last() =~= bytes@.take(i as int));
                assert(next.last() == bytes@[i as int]);
            }
            i += 1;
        }
        proof {
            assert(bytes@.take(i as int) =~= bytes@);
        }
        value
    }

    /// Big-endian bytes that write this amount.
    pub fn to_bytes_be(&self) -> (r: Vec<u8>)
        ensures
            bytes_be_value(r@) == self@,
    {
        let mut bytes: Vec<u8> = Vec::new();
        let mut i: usize = self.digits.len();
        assert(self.digits@.skip(i as int) =~= Seq::<u32>::empty());
        while i > 0
            invariant
                i <= self.digits.len(),
                bytes_be_value(bytes@) == digits_value(self.digits@.skip(i as int)),
            decreases i,
        {
            i -= 1;
            let digit: u32 = self.digits[i];
            let b3: u8 = (digit / 16777216) as u8;
            let b2: u8 = ((digit / 65536) % 256) as u8;
            let b1: u8 = ((digit / 256) % 256) as u8;
            let b0: u8 = (digit % 256) as u8;
            proof {
                lemma_push_byte(bytes@, b3);
                lemma_push_byte(bytes@.push(b3), b2);
                lemma_push_byte(bytes@.push(b3).push(b2), b1);
                lemma_push_byte(bytes@.push(b3).push(b2).push(b1), b0);
                assert(digit == 16777216 * b3 + 65536 * b2 + 256 * b1 + b0);
                let higher = self.digits@.skip(i as int);
                assert(higher.drop_first() =~= self.digits@.skip(i + 1));
                assert(higher[0] == digit);
            }
            bytes.push(b3);
            bytes.push(b2);
            bytes.push(b1);
            bytes.push(b0);
        }
        assert(self.digits@.skip(0) =~= self.digits@);
        bytes
    }

    /// The amount as a machine integer, when it fits in 64 bits.
    pub fn to_u64(&self) -> (r: Option<u64>)
        ensures
            r == (if self@ <= u64::MAX {
                Some(self@ as u64)
            } else {
                None
            }),
    {
        let limit = Amount::from_u64(u64::MAX);
        if !self.at_most(&limit) {
            return None;
        }
        let low: u64 = if self.digits.len() > 0 {
            self.digits[0] as u64
        } else {
            0
        };
        let high: u64 = if self.digits.len() > 1 {
            self.digits[1] as u64
        } else {
            0
        };
        proof {
            lemma_low_digits(self.digits@);
        }
        Some(high * 4294967296 + low)
    }

    /// An independent copy of this amount.
    pub fn duplicate(&self) -> (r: Amount)
        ensures
            r@ == self@,
    {
        Amount { digits: self.to_digits() }
    }

    /// `self + rhs`.
    pub fn plus(&self, rhs: &Amount) -> (r: Amount)
        ensures
            r@ == self@ + rhs@,
    {
        Amount { digits: digits_sum(&self.digits, &rhs.digits) }
    }

    /// `self - rhs`, or `None` when `rhs` is the larger.
    pub fn checked_minus(&self, rhs: &Amount) -> (r: Option<Amount>)
        ensures
            rhs@ <= self@ ==> r.is_some() && r.unwrap()@ == self@ - rhs@,
            rhs@ > self@ ==> r.is_none(),
    {
        if digits_at_most(&rhs.digits, &self.digits) {
            Some(Amount { digits: digits_difference(&self.digits, &rhs.digits) })
        } else {
            None
        }
    }

    /// `self - rhs`, for a `rhs` known not to exceed `self`.
    pub fn minus(&self, rhs: &Amount) -> (r: Amount)
        requires
            rhs@ <= self@,
        ensures
            r@ == self@ - rhs@,
    {
        Amount { digits: digits_difference(&self.digits, &rhs.digits) }
    }

    /// `self * rhs`.
    pub fn times(&self, rhs: &Amount) -> (r: Amount)
        ensures
            r@ == self@ * rhs@,
    {
        Amount { digits: digits_product(&self.digits, &rhs.digits) }
    }

    /// `self / rhs`, rounded down.
    pub fn div_floor(&self, rhs: &Amount) -> (r: Amount)
        requires
            rhs@ > 0,
        ensures
            r@ == self@ / rhs@,
    {
        Amount { digits: digits_quotient(&self.digits, &rhs.digits) }
    }

    /// Whether `self <= rhs`.
    pub fn at_most(&self, rhs: &Amount) -> (r: bool)
        ensures
            r == (self@ <= rhs@),
    {
        digits_at_most(&self.digits, &rhs.digits)
    }

    /// Whether `self == rhs` as numbers.
    pub fn same(&self, rhs: &Amount) -> (r: bool)
        ensures
            r == (self@ == rhs@),
    {
        digits_at_most(&self.digits, &rhs.digits) && digits_at_most(&rhs.digits, &self.digits)
    }

    /// Whether the amount is zero.
    pub fn is_zero(&self) -> (r: bool)
        ensures
            r == (self@ == 0),
    {
        let none: Vec<u32> = Vec::new();
        digits_at_most(&self.digits, &none)
    }
}

} // verus!
