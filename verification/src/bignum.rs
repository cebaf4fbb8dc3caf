//! Arbitrary-precision signed integers for index arithmetic.
//!
//! A `BigNum` stores a sign and little-endian base-2^32 digits, so its
//! mathematical value is a plain spec-level `int`. The arithmetic itself is
//! delegated to the `num_bigint` crate through trusted wrappers whose
//! contracts are stated over that value.

use vstd::prelude::*;

verus! {

/// Arbitrary-precision signed integer: `digits` are little-endian base-2^32;
/// `negative` gives the sign of the whole value.
#[derive(Debug)]
pub struct BigNum {
    pub negative: bool,
    pub digits: Vec<u32>,
}

/// Value of a little-endian base-2^32 digit sequence.
pub open spec fn digits_value(d: Seq<u32>) -> int
    decreases d.len(),
{
    if d.len() == 0 {
        0
    } else {
        d[0] + 0x1_0000_0000 * digits_value(d.skip(1))
    }
}

/// The character for a single decimal digit.
pub open spec fn digit_char(d: int) -> char {
    if d == 0 {
        '0'
    } else if d == 1 {
        '1'
    } else if d == 2 {
        '2'
    } else if d == 3 {
        '3'
    } else if d == 4 {
        '4'
    } else if d == 5 {
        '5'
    } else if d == 6 {
        '6'
    } else if d == 7 {
        '7'
    } else if d == 8 {
        '8'
    } else {
        '9'
    }
}

/// Decimal digit string of a non-negative integer, most significant first.
pub open spec fn dec_digits(n: nat) -> Seq<char>
    decreases n,
{
    if n < 10 {
        seq![digit_char(n as int)]
    } else {
        dec_digits(n / 10).push(digit_char((n % 10) as int))
    }
}

/// Canonical decimal rendering of an integer, `-` prefixed when negative.
pub open spec fn dec_rep(n: int) -> Seq<char> {
    if n < 0 {
        seq!['-'] + dec_digits((-n) as nat)
    } else {
        dec_digits(n as nat)
    }
}

impl BigNum {
    /// The mathematical value this number denotes.
    pub open spec fn value(&self) -> int {
        if self.negative {
            -digits_value(self.digits@)
        } else {
            digits_value(self.digits@)
        }
    }

    /// An equal copy.
    pub fn clone_num(&self) -> (r: BigNum)
        ensures
            r.negative == self.negative,
            r.digits@ == self.digits@,
            r.value() == self.value(),
    {
        let mut d: Vec<u32> = Vec::new();
        let mut i: usize = 0;
        while i < self.digits.len()
            invariant
                i <= self.digits.len(),
                d@ == self.digits@.take(i as int),
            decreases self.digits.len() - i,
        {
            d.push(self.digits[i]);
            i = i + 1;
        }
        proof {
            assert(self.digits@.take(self.digits@.len() as int) =~= self.digits@);
        }
        BigNum { negative: self.negative, digits: d }
    }
}

/// The number zero.
pub fn big_zero() -> (r: BigNum)
    ensures
        r.value() == 0,
{
    BigNum { negative: false, digits: Vec::new() }
}

/// Relies on `num_bigint::BigInt::from(i64)` together with `to_u32_digits`,
/// which returns the sign and the little-endian base-2^32 magnitude digits.
#[verifier::external_body]
pub fn big_from_i64(v: i64) -> (r: BigNum)
    ensures
        r.value() == v as int,
{
    let b = num_bigint::BigInt::from(v);
    let (s, digits) = b.to_u32_digits();
    BigNum { negative: matches!(s, num_bigint::Sign::Minus), digits }
}

/// Relies on `num_bigint::BigInt::from(u64)` together with `to_u32_digits`.
#[verifier::external_body]
pub fn big_from_u64(v: u64) -> (r: BigNum)
    ensures
        r.value() == v as int,
{
    let b = num_bigint::BigInt::from(v);
    let (s, digits) = b.to_u32_digits();
    BigNum { negative: matches!(s, num_bigint::Sign::Minus), digits }
}

/// Relies on `num_bigint::BigInt` addition over values built with
/// `BigInt::from_slice` (little-endian base-2^32 digits).
#[verifier::external_body]
pub fn big_add(a: &BigNum, b: &BigNum) -> (r: BigNum)
    ensures
        r.value() == a.value() + b.value(),
{
    let sa = if a.negative { num_bigint::Sign::Minus } else { num_bigint::Sign::Plus };
    let sb = if b.negative { num_bigint::Sign::Minus } else { num_bigint::Sign::Plus };
    let x = num_bigint::BigInt::from_slice(sa, &a.digits);
    let y = num_bigint::BigInt::from_slice(sb, &b.digits);
    let (s, digits) = (x + y).to_u32_digits();
    BigNum { negative: matches!(s, num_bigint::Sign::Minus), digits }
}

/// Relies on `num_bigint::BigInt`'s numeric `PartialOrd` ordering.
#[verifier::external_body]
pub fn big_lt(a: &BigNum, b: &BigNum) -> (r: bool)
    ensures
        r == (a.value() < b.value()),
{
    let sa = if a.negative { num_bigint::Sign::Minus } else { num_bigint::Sign::Plus };
    let sb = if b.negative { num_bigint::Sign::Minus } else { num_bigint::Sign::Plus };
    let x = num_bigint::BigInt::from_slice(sa, &a.digits);
    let y = num_bigint::BigInt::from_slice(sb, &b.digits);
    x < y
}

/// Relies on `num_bigint::BigInt`'s numeric equality.
#[verifier::external_body]
pub fn big_eq(a: &BigNum, b: &BigNum) -> (r: bool)
    ensures
        r == (a.value() == b.value()),
{
    let sa = if a.negative { num_bigint::Sign::Minus } else { num_bigint::Sign::Plus };
    let sb = if b.negative { num_bigint::Sign::Minus } else { num_bigint::Sign::Plus };
    let x = num_bigint::BigInt::from_slice(sa, &a.digits);
    let y = num_bigint::BigInt::from_slice(sb, &b.digits);
    x == y
}

/// Relies on `num_traits::Zero::is_zero` for `num_bigint::BigInt`.
#[verifier::external_body]
pub fn big_is_zero(a: &BigNum) -> (r: bool)
    ensures
        r == (a.value() == 0),
{
    let sa = if a.negative { num_bigint::Sign::Minus } else { num_bigint::Sign::Plus };
    let x = num_bigint::BigInt::from_slice(sa, &a.digits);
    num_traits::Zero::is_zero(&x)
}

/// Relies on `num_traits::Signed::is_negative` for `num_bigint::BigInt`.
#[verifier::external_body]
pub fn big_is_negative(a: &BigNum) -> (r: bool)
    ensures
        r == (a.value() < 0),
{
    let sa = if a.negative { num_bigint::Sign::Minus } else { num_bigint::Sign::Plus };
    let x = num_bigint::BigInt::from_slice(sa, &a.digits);
    num_traits::Signed::is_negative(&x)
}

/// Relies on `num_bigint::BigInt`'s `Display`, which renders the canonical
/// decimal digits with a `-` prefix for negative values.
#[verifier::external_body]
pub fn big_to_decimal(a: &BigNum) -> (r: String)
    ensures
        r@ == dec_rep(a.value()),
{
    let sa = if a.negative { num_bigint::Sign::Minus } else { num_bigint::Sign::Plus };
    let x = num_bigint::BigInt::from_slice(sa, &a.digits);
    x.to_string()
}

} // verus!
