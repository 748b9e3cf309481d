//! A 256-bit signed integer in two's complement, the layout of
//! `ethers::types::I256`. Sign tests, ordering and the conversions from and to
//! [`U256`] are proved here; products, quotients and differences are computed
//! by `ethers` through the trusted operations at the end of the file.

use crate::u256::{lemma_limbs_order, U256};
use vstd::prelude::*;

verus! {

/// The largest number an [`I256`] can hold, `2^255 - 1`.
pub open spec fn i256_max() -> int {
    0x7fff_ffff_ffff_ffff_ffff_ffff_ffff_ffff_ffff_ffff_ffff_ffff_ffff_ffff_ffff_ffffint
}

/// The smallest number an [`I256`] can hold, `-2^255`.
pub open spec fn i256_min() -> int {
    -0x8000_0000_0000_0000_0000_0000_0000_0000_0000_0000_0000_0000_0000_0000_0000_0000int
}

/// The quotient rounded toward zero.
pub open spec fn truncated_quotient(a: int, b: int) -> int {
    if a >= 0 && b > 0 {
        a / b
    } else if a >= 0 {
        -(a / (-b))
    } else if b > 0 {
        -((-a) / b)
    } else {
        (-a) / (-b)
    }
}

/// 256-bit signed integer; `raw` holds its two's complement.
#[derive(Clone, Copy, Debug, PartialEq, Eq)]
pub struct I256 {
    pub raw: U256,
}

impl View for I256 {
    type V = int;

    open spec fn view(&self) -> int {
        if self.raw@ <= i256_max() {
            self.raw@ as int
        } else {
            self.raw@ - 0x1_0000_0000_0000_0000_0000_0000_0000_0000_0000_0000_0000_0000_0000_0000_0000_0000int
        }
    }
}

/// Every [`I256`] lies in `-2^255 ..= 2^255 - 1`, and is negative exactly
/// when the top bit of its most significant limb is set.
pub proof fn lemma_i256_bounded(a: I256)
    ensures
        i256_min() <= a@ <= i256_max(),
        a@ < 0 <==> a.raw.limbs[3] >= 0x8000_0000_0000_0000,
        a@ >= 0 ==> a@ == a.raw@,
{
    let low = (a.raw.limbs[0] as int) + (a.raw.limbs[1] as int) * 0x1_0000_0000_0000_0000int
        + (a.raw.limbs[2] as int) * 0x1_0000_0000_0000_0000_0000_0000_0000_0000int;
    assert(0 <= low < 0x1_0000_0000_0000_0000_0000_0000_0000_0000_0000_0000_0000_0000int);
    assert(a.raw@ == low + (a.raw.limbs[3] as int)
        * 0x1_0000_0000_0000_0000_0000_0000_0000_0000_0000_0000_0000_0000int);
}

impl I256 {
    pub fn zero() -> (r: I256)
        ensures
            r@ == 0,
    {
        I256 { raw: U256::zero() }
    }

    /// `-2^255`.
    pub fn min_value() -> (r: I256)
        ensures
            r@ == i256_min(),
    {
        I256 { raw: U256 { limbs: [0, 0, 0, 0x8000_0000_0000_0000] } }
    }

    /// `2^255 - 1`.
    pub fn max_value() -> (r: I256)
        ensures
            r@ == i256_max(),
    {
        I256 {
            raw: U256 {
                limbs: [
                    0xffff_ffff_ffff_ffff,
                    0xffff_ffff_ffff_ffff,
                    0xffff_ffff_ffff_ffff,
                    0x7fff_ffff_ffff_ffff,
                ],
            },
        }
    }

    pub fn from_u64(x: u64) -> (r: I256)
        ensures
            r@ == x,
    {
        I256 { raw: U256::from_u64(x) }
    }

    /// The number whose two's complement is `raw`.
    pub fn from_raw(raw: U256) -> (r: I256)
        ensures
            r.raw == raw,
    {
        I256 { raw }
    }

    /// The two's complement of the number.
    pub fn into_raw(&self) -> (r: U256)
        ensures
            r == self.raw,
    {
        self.raw
    }

    /// The same number as a signed one, or `None` above `2^255 - 1`.
    pub fn try_from_u256(value: U256) -> (r: Option<I256>)
        ensures
            r is Some <==> value@ <= i256_max(),
            r matches Some(v) ==> v@ == value@,
    {
        let r = I256 { raw: value };
        proof {
            lemma_i256_bounded(r);
        }
        if value.limbs[3] >= 0x8000_0000_0000_0000 {
            None
        } else {
            Some(r)
        }
    }

    /// The same number as an unsigned one, or `None` below zero.
    pub fn try_into_u256(&self) -> (r: Option<U256>)
        ensures
            r is Some <==> self@ >= 0,
            r matches Some(v) ==> v@ == self@,
    {
        proof {
            lemma_i256_bounded(*self);
        }
        if self.raw.limbs[3] >= 0x8000_0000_0000_0000 {
            None
        } else {
            Some(self.raw)
        }
    }

    pub fn is_negative(&self) -> (r: bool)
        ensures
            r == (self@ < 0),
    {
        proof {
            lemma_i256_bounded(*self);
        }
        self.raw.limbs[3] >= 0x8000_0000_0000_0000
    }

    /// Whether the number is above zero.
    pub fn is_positive(&self) -> (r: bool)
        ensures
            r == (self@ > 0),
    {
        !self.is_negative() && !self.raw.is_zero()
    }

    /// Whether both stand for the same number.
    pub fn same(&self, other: &I256) -> (r: bool)
        ensures
            r == (self@ == other@),
            r == (*self == *other),
    {
        proof {
            lemma_limbs_order(self.raw, other.raw);
        }
        self.raw.same(&other.raw)
    }

    /// `self < other`, as numbers.
    pub fn lt(&self, other: &I256) -> (r: bool)
        ensures
            r == (self@ < other@),
    {
        let a_neg = self.is_negative();
        let b_neg = other.is_negative();
        if a_neg != b_neg {
            a_neg
        } else {
            self.raw.lt(&other.raw)
        }
    }

    /// `self > other`, as numbers.
    pub fn gt(&self, other: &I256) -> (r: bool)
        ensures
            r == (self@ > other@),
    {
        other.lt(self)
    }

    /// The product, or `None` when it leaves the range.
    pub fn checked_mul(&self, other: &I256) -> (r: Option<I256>)
        ensures
            r is Some <==> i256_min() <= self@ * other@ <= i256_max(),
            r matches Some(v) ==> v@ == self@ * other@,
    {
        signed_checked_mul(*self, *other)
    }

    /// The quotient rounded toward zero, or `None` when the divisor is zero
    /// or the quotient leaves the range (`-2^255 / -1`).
    pub fn checked_div(&self, other: &I256) -> (r: Option<I256>)
        ensures
            r is None <==> (other@ == 0 || (self@ == i256_min() && other@ == -1)),
            r matches Some(v) ==> v@ == truncated_quotient(self@, other@),
    {
        signed_checked_div(*self, *other)
    }

    /// The difference, or `None` when it leaves the range.
    pub fn checked_sub(&self, other: &I256) -> (r: Option<I256>)
        ensures
            r is Some <==> i256_min() <= self@ - other@ <= i256_max(),
            r matches Some(v) ==> v@ == self@ - other@,
    {
        signed_checked_sub(*self, *other)
    }
}

/// `checked_mul` of `ethers::types::I256`: the product where it lies in
/// `-2^255 ..= 2^255 - 1`, and nothing otherwise.
#[verifier::external_body]
fn signed_checked_mul(a: I256, b: I256) -> (r: Option<I256>)
    ensures
        r is Some <==> i256_min() <= a@ * b@ <= i256_max(),
        r matches Some(v) ==> v@ == a@ * b@,
{
    let x = ethers::types::I256::from_raw(ethers::types::U256(a.raw.limbs));
    let y = ethers::types::I256::from_raw(ethers::types::U256(b.raw.limbs));
    match x.checked_mul(y) {
        Some(v) => Some(I256 { raw: U256 { limbs: v.into_raw().0 } }),
        None => None,
    }
}

/// `checked_div` of `ethers::types::I256`: nothing for a zero divisor and for
/// `-2^255 / -1`, otherwise the quotient of the absolute values with the sign
/// of the exact quotient.
#[verifier::external_body]
fn signed_checked_div(a: I256, b: I256) -> (r: Option<I256>)
    ensures
        r is None <==> (b@ == 0 || (a@ == i256_min() && b@ == -1)),
        r matches Some(v) ==> v@ == truncated_quotient(a@, b@),
{
    let x = ethers::types::I256::from_raw(ethers::types::U256(a.raw.limbs));
    let y = ethers::types::I256::from_raw(ethers::types::U256(b.raw.limbs));
    match x.checked_div(y) {
        Some(v) => Some(I256 { raw: U256 { limbs: v.into_raw().0 } }),
        None => None,
    }
}

/// `checked_sub` of `ethers::types::I256`: the difference where it lies in
/// `-2^255 ..= 2^255 - 1`, and nothing otherwise.
#[verifier::external_body]
fn signed_checked_sub(a: I256, b: I256) -> (r: Option<I256>)
    ensures
        r is Some <==> i256_min() <= a@ - b@ <= i256_max(),
        r matches Some(v) ==> v@ == a@ - b@,
{
    let x = ethers::types::I256::from_raw(ethers::types::U256(a.raw.limbs));
    let y = ethers::types::I256::from_raw(ethers::types::U256(b.raw.limbs));
    match x.checked_sub(y) {
        Some(v) => Some(I256 { raw: U256 { limbs: v.into_raw().0 } }),
        None => None,
    }
}

} // verus!
