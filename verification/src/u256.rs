//! A 256-bit unsigned integer whose value is visible to the verifier.
//!
//! The number is kept as four 64-bit limbs, least significant first, which is
//! the layout of `ethers::types::U256`. Comparison and the small constructors
//! are proved here against the number the limbs stand for; the wide arithmetic
//! is delegated to `ethers` through the trusted operators at the end of the file.

use crate::arith::lemma_le_quotient;
use vstd::arithmetic::power::pow;
use vstd::prelude::*;

verus! {

/// The weight of the second limb, `2^64`.
pub open spec fn limb_radix() -> nat {
    0x1_0000_0000_0000_0000nat
}

/// The largest number a [`U256`] can hold, `2^256 - 1`.
pub open spec fn u256_max() -> nat {
    0xffff_ffff_ffff_ffff_ffff_ffff_ffff_ffff_ffff_ffff_ffff_ffff_ffff_ffff_ffff_ffffnat
}

/// The number that four little-endian limbs stand for.
pub open spec fn limbs_value(l0: u64, l1: u64, l2: u64, l3: u64) -> nat {
    (l0 as nat) + (l1 as nat) * 0x1_0000_0000_0000_0000nat + (l2 as nat)
        * 0x1_0000_0000_0000_0000_0000_0000_0000_0000nat + (l3 as nat)
        * 0x1_0000_0000_0000_0000_0000_0000_0000_0000_0000_0000_0000_0000nat
}

/// 256-bit unsigned integer, four little-endian 64-bit limbs.
#[derive(Clone, Copy, Debug, PartialEq, Eq)]
pub struct U256 {
    pub limbs: [u64; 4],
}

impl View for U256 {
    type V = nat;

    open spec fn view(&self) -> nat {
        limbs_value(self.limbs[0], self.limbs[1], self.limbs[2], self.limbs[3])
    }
}

/// Every [`U256`] lies in `0 ..= 2^256 - 1`.
pub proof fn lemma_u256_bounded(a: U256)
    ensures
        a@ <= u256_max(),
{
}

/// Two limb quadruples stand for the same number only if they are the same
/// quadruple, and the more significant limb decides the order.
pub proof fn lemma_limbs_order(a: U256, b: U256)
    ensures
        a@ == b@ <==> a == b,
        a@ < b@ <==> (a.limbs[3] < b.limbs[3] || (a.limbs[3] == b.limbs[3] && (a.limbs[2]
            < b.limbs[2] || (a.limbs[2] == b.limbs[2] && (a.limbs[1] < b.limbs[1] || (a.limbs[1]
            == b.limbs[1] && a.limbs[0] < b.limbs[0])))))),
{
    let a0 = a.limbs[0] as int;
    let a1 = a.limbs[1] as int;
    let a2 = a.limbs[2] as int;
    let a3 = a.limbs[3] as int;
    let b0 = b.limbs[0] as int;
    let b1 = b.limbs[1] as int;
    let b2 = b.limbs[2] as int;
    let b3 = b.limbs[3] as int;
    let lo_a = a0 + a1 * 0x1_0000_0000_0000_0000nat;
    let lo_b = b0 + b1 * 0x1_0000_0000_0000_0000nat;
    assert(0 <= lo_a < 0x1_0000_0000_0000_0000_0000_0000_0000_0000nat);
    assert(0 <= lo_b < 0x1_0000_0000_0000_0000_0000_0000_0000_0000nat);
    let mid_a = lo_a + a2 * 0x1_0000_0000_0000_0000_0000_0000_0000_0000nat;
    let mid_b = lo_b + b2 * 0x1_0000_0000_0000_0000_0000_0000_0000_0000nat;
    assert(0 <= mid_a < 0x1_0000_0000_0000_0000_0000_0000_0000_0000_0000_0000_0000_0000nat);
    assert(0 <= mid_b < 0x1_0000_0000_0000_0000_0000_0000_0000_0000_0000_0000_0000_0000nat);
    assert(a@ == mid_a + a3 * 0x1_0000_0000_0000_0000_0000_0000_0000_0000_0000_0000_0000_0000nat);
    assert(b@ == mid_b + b3 * 0x1_0000_0000_0000_0000_0000_0000_0000_0000_0000_0000_0000_0000nat);
    if a3 == b3 {
        if a2 == b2 {
            if a1 == b1 {
                if a0 == b0 {
                    assert(a.limbs =~= b.limbs);
                }
            }
        }
    }
}

impl U256 {
    /// The number with the given little-endian limbs.
    pub fn from_limbs(limbs: [u64; 4]) -> (r: U256)
        ensures
            r.limbs == limbs,
    {
        U256 { limbs }
    }

    /// The little-endian limbs of the number.
    pub fn to_limbs(&self) -> (r: [u64; 4])
        ensures
            r == self.limbs,
    {
        self.limbs
    }

    pub fn zero() -> (r: U256)
        ensures
            r@ == 0,
    {
        U256 { limbs: [0, 0, 0, 0] }
    }

    pub fn one() -> (r: U256)
        ensures
            r@ == 1,
    {
        U256 { limbs: [1, 0, 0, 0] }
    }

    /// `2^256 - 1`.
    pub fn max_value() -> (r: U256)
        ensures
            r@ == u256_max(),
    {
        U256 {
            limbs: [
                0xffff_ffff_ffff_ffff,
                0xffff_ffff_ffff_ffff,
                0xffff_ffff_ffff_ffff,
                0xffff_ffff_ffff_ffff,
            ],
        }
    }

    pub fn from_u64(x: u64) -> (r: U256)
        ensures
            r@ == x,
    {
        U256 { limbs: [x, 0, 0, 0] }
    }

    pub fn from_u128(x: u128) -> (r: U256)
        ensures
            r@ == x,
    {
        let low: u64 = (x % 0x1_0000_0000_0000_0000) as u64;
        let high: u64 = (x / 0x1_0000_0000_0000_0000) as u64;
        U256 { limbs: [low, high, 0, 0] }
    }

    /// The least significant limb: the number modulo `2^64`.
    pub fn low_u64(&self) -> (r: u64)
        ensures
            r == self@ % limb_radix(),
    {
        self.limbs[0]
    }

    pub fn is_zero(&self) -> (r: bool)
        ensures
            r == (self@ == 0),
    {
        self.limbs[0] == 0 && self.limbs[1] == 0 && self.limbs[2] == 0 && self.limbs[3] == 0
    }

    /// Whether both stand for the same number.
    pub fn same(&self, other: &U256) -> (r: bool)
        ensures
            r == (self@ == other@),
            r == (*self == *other),
    {
        proof {
            lemma_limbs_order(*self, *other);
        }
        self.limbs[0] == other.limbs[0] && self.limbs[1] == other.limbs[1] && self.limbs[2]
            == other.limbs[2] && self.limbs[3] == other.limbs[3]
    }

    /// `self < other`, as numbers.
    pub fn lt(&self, other: &U256) -> (r: bool)
        ensures
            r == (self@ < other@),
    {
        proof {
            lemma_limbs_order(*self, *other);
        }
        if self.limbs[3] != other.limbs[3] {
            self.limbs[3] < other.limbs[3]
        } else if self.limbs[2] != other.limbs[2] {
            self.limbs[2] < other.limbs[2]
        } else if self.limbs[1] != other.limbs[1] {
            self.limbs[1] < other.limbs[1]
        } else {
            self.limbs[0] < other.limbs[0]
        }
    }

    /// `self > other`, as numbers.
    pub fn gt(&self, other: &U256) -> (r: bool)
        ensures
            r == (self@ > other@),
    {
        other.lt(self)
    }

    /// `self <= other`, as numbers.
    pub fn le(&self, other: &U256) -> (r: bool)
        ensures
            r == (self@ <= other@),
    {
        !other.lt(self)
    }

    /// `self >= other`, as numbers.
    pub fn ge(&self, other: &U256) -> (r: bool)
        ensures
            r == (self@ >= other@),
    {
        !self.lt(other)
    }
}

impl U256 {
    /// The sum, or `None` when it does not fit in 256 bits.
    pub fn checked_add(&self, other: &U256) -> (r: Option<U256>)
        ensures
            r is Some <==> self@ + other@ <= u256_max(),
            r matches Some(v) ==> v@ == self@ + other@,
    {
        let room = wide_sub(U256::max_value(), *self);
        if other.gt(&room) {
            None
        } else {
            Some(wide_add(*self, *other))
        }
    }

    /// The difference, or `None` when `other` is the larger.
    pub fn checked_sub(&self, other: &U256) -> (r: Option<U256>)
        ensures
            r is Some <==> other@ <= self@,
            r matches Some(v) ==> v@ == self@ - other@,
    {
        if other.gt(self) {
            None
        } else {
            Some(wide_sub(*self, *other))
        }
    }

    /// The product, or `None` when it does not fit in 256 bits.
    pub fn checked_mul(&self, other: &U256) -> (r: Option<U256>)
        ensures
            r is Some <==> self@ * other@ <= u256_max(),
            r matches Some(v) ==> v@ == self@ * other@,
    {
        if other.is_zero() {
            assert(self@ * other@ == 0) by (nonlinear_arith)
                requires
                    other@ == 0,
            ;
            return Some(U256::zero());
        }
        let limit = wide_div(U256::max_value(), *other);
        proof {
            lemma_le_quotient(self@ as int, other@ as int, u256_max() as int);
        }
        if self.gt(&limit) {
            None
        } else {
            Some(wide_mul(*self, *other))
        }
    }

    /// The floor of the quotient, or `None` when the divisor is zero.
    pub fn checked_div(&self, other: &U256) -> (r: Option<U256>)
        ensures
            r is Some <==> other@ != 0,
            r matches Some(v) ==> v@ == self@ / other@,
    {
        if other.is_zero() {
            None
        } else {
            Some(wide_div(*self, *other))
        }
    }

    /// The remainder, or `None` when the divisor is zero.
    pub fn checked_rem(&self, other: &U256) -> (r: Option<U256>)
        ensures
            r is Some <==> other@ != 0,
            r matches Some(v) ==> v@ == self@ % other@,
    {
        if other.is_zero() {
            None
        } else {
            Some(wide_rem(*self, *other))
        }
    }

    /// `10^n`, or `None` when that does not fit in 256 bits.
    pub fn checked_exp10(n: u64) -> (r: Option<U256>)
        ensures
            r is Some <==> pow(10, n as nat) <= u256_max(),
            r matches Some(v) ==> v@ == pow(10, n as nat),
    {
        let ten = U256::from_u64(10);
        let mut acc = U256::one();
        let mut i: u64 = 0;
        proof {
            vstd::arithmetic::power::lemma_pow0(10);
        }
        while i < n
            invariant
                i <= n,
                ten@ == 10,
                acc@ == pow(10, i as nat),
            decreases n - i,
        {
            proof {
                vstd::arithmetic::power::lemma_pow_positive(10, i as nat);
                vstd::arithmetic::power::lemma_pow_increases(10, (i + 1) as nat, n as nat);
                assert(pow(10, (i + 1) as nat) == 10 * pow(10, i as nat)) by {
                    vstd::arithmetic::power::lemma_pow_adds(10, 1, i as nat);
                    vstd::arithmetic::power::lemma_pow1(10);
                }
                assert(acc@ * ten@ == 10 * pow(10, i as nat)) by (nonlinear_arith)
                    requires
                        ten@ == 10,
                        acc@ == pow(10, i as nat),
                ;
            }
            match acc.checked_mul(&ten) {
                Some(next) => {
                    acc = next;
                },
                None => {
                    return None;
                },
            }
            i = i + 1;
        }
        Some(acc)
    }
}

/// `+` of `ethers::types::U256`, called only where the sum fits: the operator
/// panics on overflow and otherwise returns the sum.
#[verifier::external_body]
pub(crate) fn wide_add(a: U256, b: U256) -> (r: U256)
    requires
        a@ + b@ <= u256_max(),
    ensures
        r@ == a@ + b@,
{
    U256 { limbs: (ethers::types::U256(a.limbs) + ethers::types::U256(b.limbs)).0 }
}

/// `-` of `ethers::types::U256`, called only where `b <= a`: the operator
/// panics on underflow and otherwise returns the difference.
#[verifier::external_body]
pub(crate) fn wide_sub(a: U256, b: U256) -> (r: U256)
    requires
        b@ <= a@,
    ensures
        r@ == a@ - b@,
{
    U256 { limbs: (ethers::types::U256(a.limbs) - ethers::types::U256(b.limbs)).0 }
}

/// `*` of `ethers::types::U256`, called only where the product fits: the
/// operator panics on overflow and otherwise returns the product.
#[verifier::external_body]
pub(crate) fn wide_mul(a: U256, b: U256) -> (r: U256)
    requires
        a@ * b@ <= u256_max(),
    ensures
        r@ == a@ * b@,
{
    U256 { limbs: (ethers::types::U256(a.limbs) * ethers::types::U256(b.limbs)).0 }
}

/// `/` of `ethers::types::U256`, called only with a divisor other than zero
/// (it panics on zero): the quotient rounded down.
#[verifier::external_body]
pub(crate) fn wide_div(a: U256, b: U256) -> (r: U256)
    requires
        b@ != 0,
    ensures
        r@ == a@ / b@,
{
    U256 { limbs: (ethers::types::U256(a.limbs) / ethers::types::U256(b.limbs)).0 }
}

/// `%` of `ethers::types::U256`, called only with a divisor other than zero
/// (it panics on zero): the remainder of the division rounded down.
#[verifier::external_body]
pub(crate) fn wide_rem(a: U256, b: U256) -> (r: U256)
    requires
        b@ != 0,
    ensures
        r@ == a@ % b@,
{
    U256 { limbs: (ethers::types::U256(a.limbs) % ethers::types::U256(b.limbs)).0 }
}

} // verus!
