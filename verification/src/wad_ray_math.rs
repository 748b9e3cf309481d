//! Fixed-point arithmetic in the two scales of the lending protocol: wad
//! (18 decimals) and ray (27 decimals). Every operation rounds half up and
//! refuses, before it multiplies, operands whose intermediate value would
//! leave 256 bits.

use crate::arith::{lemma_cancel_lt, lemma_div_bounds, lemma_le_quotient, lemma_quotient_unique};
use crate::u256::{lemma_u256_bounded, u256_max, wide_add, wide_div, wide_mul, wide_rem, wide_sub, U256};
use vstd::prelude::*;

verus! {

/// Why a fixed-point operation produced no number.
#[derive(Clone, Copy, Debug, PartialEq, Eq, Structural)]
pub enum MathError {
    /// The intermediate value does not fit in 256 bits.
    Overflow,
    /// The divisor is zero.
    DivideByZero,
}

/// One wad, `10^18`.
pub const WAD: u128 = 1_000_000_000_000_000_000;

/// Half a wad.
pub const HALF_WAD: u128 = 500_000_000_000_000_000;

/// One ray, `10^27`.
pub const RAY: u128 = 1_000_000_000_000_000_000_000_000_000;

/// Half a ray.
pub const HALF_RAY: u128 = 500_000_000_000_000_000_000_000_000;

/// How many rays make a wad's unit: `10^9`.
pub const WAD_RAY_RATIO: u128 = 1_000_000_000;

/// What a rounded multiplication in the given scale yields:
/// `(a * b + scale / 2) / scale`, unless the guard on `a` trips.
pub open spec fn mul_model(a: nat, b: nat, scale: nat) -> Result<nat, MathError> {
    if b != 0 && a > (u256_max() - scale / 2) / (b as int) {
        Err(MathError::Overflow)
    } else {
        Ok(((a * b + scale / 2) / scale) as nat)
    }
}

/// What a rounded division in the given scale yields:
/// `(a * scale + b / 2) / b`, unless the divisor is zero or the guard on `a`
/// trips.
pub open spec fn div_model(a: nat, b: nat, scale: nat) -> Result<nat, MathError> {
    if b == 0 {
        Err(MathError::DivideByZero)
    } else if a > (u256_max() - b / 2) / (scale as int) {
        Err(MathError::Overflow)
    } else {
        Ok(((a * scale + b / 2) / b) as nat)
    }
}

/// A ray amount in wads: the quotient by `10^9`, one more when the remainder
/// is at least half of `10^9`.
pub open spec fn ray_to_wad_model(a: nat) -> nat {
    if a % 1_000_000_000 >= 500_000_000 {
        a / 1_000_000_000 + 1
    } else {
        a / 1_000_000_000
    }
}

/// A wad amount in rays: `a * 10^9`, when that fits.
pub open spec fn wad_to_ray_model(a: nat) -> Result<nat, MathError> {
    if a * 1_000_000_000 > u256_max() {
        Err(MathError::Overflow)
    } else {
        Ok(a * 1_000_000_000)
    }
}

/// The number an outcome stands for.
pub open spec fn outcome(r: Result<U256, MathError>) -> Result<nat, MathError> {
    match r {
        Ok(v) => Ok(v@),
        Err(e) => Err(e),
    }
}

fn mul_scaled(a: U256, b: U256, scale: U256, half: U256) -> (r: Result<U256, MathError>)
    requires
        scale@ > 0,
        half@ == scale@ / 2,
    ensures
        outcome(r) == mul_model(a@, b@, scale@),
{
    if b.is_zero() {
        proof {
            assert(a@ * b@ == 0) by (nonlinear_arith)
                requires
                    b@ == 0,
            ;
            lemma_quotient_unique(half@ as int, scale@ as int, 0);
        }
        return Ok(U256::zero());
    }
    let max_a = wide_div(wide_sub(U256::max_value(), half), b);
    if a.gt(&max_a) {
        return Err(MathError::Overflow);
    }
    proof {
        lemma_le_quotient(a@ as int, b@ as int, u256_max() - half@);
    }
    Ok(wide_div(wide_add(wide_mul(a, b), half), scale))
}

fn div_scaled(a: U256, b: U256, scale: U256) -> (r: Result<U256, MathError>)
    requires
        scale@ > 0,
    ensures
        outcome(r) == div_model(a@, b@, scale@),
{
    if b.is_zero() {
        return Err(MathError::DivideByZero);
    }
    let half_b = wide_div(b, U256::from_u64(2));
    let max_a = wide_div(wide_sub(U256::max_value(), half_b), scale);
    if a.gt(&max_a) {
        return Err(MathError::Overflow);
    }
    proof {
        lemma_le_quotient(a@ as int, scale@ as int, u256_max() - half_b@);
    }
    Ok(wide_div(wide_add(wide_mul(a, scale), half_b), b))
}

/// Multiplies two wads, rounding half up to the nearest wad.
pub fn wad_mul(a: U256, b: U256) -> (r: Result<U256, MathError>)
    ensures
        outcome(r) == mul_model(a@, b@, WAD as nat),
{
    mul_scaled(a, b, U256::from_u128(WAD), U256::from_u128(HALF_WAD))
}

/// Divides two wads, rounding half up to the nearest wad.
pub fn wad_div(a: U256, b: U256) -> (r: Result<U256, MathError>)
    ensures
        outcome(r) == div_model(a@, b@, WAD as nat),
{
    div_scaled(a, b, U256::from_u128(WAD))
}

/// Multiplies two rays, rounding half up to the nearest ray.
pub fn ray_mul(a: U256, b: U256) -> (r: Result<U256, MathError>)
    ensures
        outcome(r) == mul_model(a@, b@, RAY as nat),
{
    mul_scaled(a, b, U256::from_u128(RAY), U256::from_u128(HALF_RAY))
}

/// Divides two rays, rounding half up to the nearest ray.
pub fn ray_div(a: U256, b: U256) -> (r: Result<U256, MathError>)
    ensures
        outcome(r) == div_model(a@, b@, RAY as nat),
{
    div_scaled(a, b, U256::from_u128(RAY))
}

/// Casts a ray down to a wad, rounding half up.
pub fn ray_to_wad(a: U256) -> (r: U256)
    ensures
        r@ == ray_to_wad_model(a@),
{
    let ratio = U256::from_u128(WAD_RAY_RATIO);
    let result = wide_div(a, ratio);
    let remainder = wide_rem(a, ratio);
    if remainder.ge(&wide_div(ratio, U256::from_u64(2))) {
        proof {
            lemma_u256_bounded(a);
        }
        wide_add(result, U256::one())
    } else {
        result
    }
}

/// Casts a wad up to a ray.
pub fn wad_to_ray(a: U256) -> (r: Result<U256, MathError>)
    ensures
        outcome(r) == wad_to_ray_model(a@),
{
    let ratio = U256::from_u128(WAD_RAY_RATIO);
    match a.checked_mul(&ratio) {
        Some(v) => Ok(v),
        None => Err(MathError::Overflow),
    }
}

/// The guard of a rounded multiplication trips exactly when the rounded
/// product would leave 256 bits.
pub proof fn lemma_mul_fails_iff_overflow(a: nat, b: nat, scale: nat)
    requires
        scale / 2 <= u256_max(),
    ensures
        mul_model(a, b, scale) is Err <==> a * b + scale / 2 > u256_max(),
        mul_model(a, b, scale) is Err ==> mul_model(a, b, scale) == Err::<nat, MathError>(
            MathError::Overflow,
        ),
{
    if b != 0 {
        lemma_le_quotient(a as int, b as int, u256_max() - scale / 2);
    } else {
        assert(a * b == 0) by (nonlinear_arith)
            requires
                b == 0,
        ;
    }
}

/// A rounded division fails on a zero divisor whatever the dividend, and
/// otherwise exactly when the scaled dividend would leave 256 bits.
pub proof fn lemma_div_fails_iff(a: nat, b: nat, scale: nat)
    requires
        0 < scale,
        b <= u256_max(),
    ensures
        div_model(a, 0, scale) == Err::<nat, MathError>(MathError::DivideByZero),
        b != 0 ==> (div_model(a, b, scale) is Err <==> a * scale + b / 2 > u256_max()),
        b != 0 && div_model(a, b, scale) is Err ==> div_model(a, b, scale) == Err::<
            nat,
            MathError,
        >(MathError::Overflow),
{
    if b != 0 {
        lemma_le_quotient(a as int, scale as int, u256_max() - b / 2);
    }
}

/// Rounded multiplication does not depend on the order of its operands,
/// neither in its value nor in whether it fails.
pub proof fn lemma_mul_commutes(a: nat, b: nat, scale: nat)
    requires
        scale / 2 <= u256_max(),
    ensures
        mul_model(a, b, scale) == mul_model(b, a, scale),
{
    lemma_mul_fails_iff_overflow(a, b, scale);
    lemma_mul_fails_iff_overflow(b, a, scale);
    assert(a * b == b * a) by (nonlinear_arith);
}

/// A zero operand on either side gives zero, without error.
pub proof fn lemma_mul_by_zero(a: nat, b: nat, scale: nat)
    requires
        0 < scale,
        scale / 2 <= u256_max(),
    ensures
        mul_model(a, 0, scale) == Ok::<nat, MathError>(0),
        mul_model(0, b, scale) == Ok::<nat, MathError>(0),
{
    lemma_mul_commutes(0, b, scale);
    assert(a * 0 == 0) by (nonlinear_arith);
    assert(b * 0 == 0) by (nonlinear_arith);
    lemma_quotient_unique((scale / 2) as int, scale as int, 0);
}

/// Adding half the scale before dividing rounds to the nearest multiple,
/// halves upward: the quotient grows by one exactly when twice the remainder
/// reaches the scale.
pub proof fn lemma_rounds_half_up(x: nat, scale: nat)
    requires
        0 < scale,
    ensures
        (x + scale / 2) / scale == x / scale + (if 2 * (x % scale) >= scale {
            1nat
        } else {
            0nat
        }),
{
    lemma_div_bounds(x as int, scale as int);
    let q = (x / scale) as int;
    let r = (x % scale) as int;
    let h = (scale / 2) as int;
    if 2 * r >= scale {
        assert((q + 1) * scale == q * scale + scale) by (nonlinear_arith);
        lemma_quotient_unique(x + h, scale as int, q + 1);
    } else {
        lemma_quotient_unique(x + h, scale as int, q);
    }
}

/// Where a rounded multiplication by `b` and the division of its result by
/// `b` both succeed, and `b` is more than a third of the scale, the round
/// trip returns to within one unit of the number it started from.
pub proof fn lemma_mul_div_round_trip(a: nat, b: nat, scale: nat)
    requires
        0 < scale,
        scale < 3 * b,
        mul_model(a, b, scale) is Ok,
        div_model(mul_model(a, b, scale)->Ok_0, b, scale) is Ok,
    ensures
        div_model(mul_model(a, b, scale)->Ok_0, b, scale)->Ok_0 <= a + 1,
        a <= div_model(mul_model(a, b, scale)->Ok_0, b, scale)->Ok_0 + 1,
{
    let h = (scale / 2) as int;
    let hb = (b / 2) as int;
    let m = mul_model(a, b, scale)->Ok_0 as int;
    let d = div_model(m as nat, b, scale)->Ok_0 as int;
    let ab = (a * b) as int;
    let ms = m * scale;
    assert(0 <= ab) by (nonlinear_arith)
        requires
            ab == a * b,
    ;
    assert(0 <= ms) by (nonlinear_arith)
        requires
            ms == m * scale,
            0 <= m,
            0 < scale,
    ;
    lemma_div_bounds(ab + h, scale as int);
    lemma_div_bounds(ms + hb, b as int);
    assert(m == (ab + h) / (scale as int));
    assert(d == (ms + hb) / (b as int));
    // m * scale <= a * b + h < m * scale + scale
    // d * b <= m * scale + hb < d * b + b
    let db = d * b;
    assert(db <= ms + hb < db + b);
    assert(ms <= ab + h < ms + scale);
    assert((a + 2) * b == ab + 2 * b) by (nonlinear_arith)
        requires
            ab == a * b,
    ;
    assert(db < (a + 2) * b);
    lemma_cancel_lt(d, (a + 2) as int, b as int);
    assert((d + 2) * b == db + 2 * b) by (nonlinear_arith)
        requires
            db == d * b,
    ;
    assert(ab < (d + 2) * b);
    lemma_cancel_lt(a as int, d + 2, b as int);
}

/// Casting a ray to a wad rounds half up: it is the division of the number
/// plus half of `10^9` by `10^9`.
pub proof fn lemma_ray_to_wad_rounds_half_up(a: nat)
    ensures
        ray_to_wad_model(a) == (a + 500_000_000) / 1_000_000_000,
{
}

/// A ray amount that came from a wad casts back to that wad.
pub proof fn lemma_wad_ray_round_trip(a: nat)
    requires
        wad_to_ray_model(a) is Ok,
    ensures
        ray_to_wad_model(wad_to_ray_model(a)->Ok_0) == a,
{
}

} // verus!
