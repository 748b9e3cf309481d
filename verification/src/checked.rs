//! 256-bit arithmetic that reports an error where the plain operators would
//! stop the program.

use crate::u256::{u256_max, U256};
use crate::wad_ray_math::{outcome, MathError};
use vstd::prelude::*;

verus! {

/// The product, where it fits in 256 bits.
pub open spec fn product(a: nat, b: nat) -> Result<nat, MathError> {
    if a * b > u256_max() {
        Err(MathError::Overflow)
    } else {
        Ok(a * b)
    }
}

/// The sum, where it fits in 256 bits.
pub open spec fn sum(a: nat, b: nat) -> Result<nat, MathError> {
    if a + b > u256_max() {
        Err(MathError::Overflow)
    } else {
        Ok(a + b)
    }
}

/// The quotient rounded down, for a divisor other than zero.
pub open spec fn quotient(a: nat, b: nat) -> Result<nat, MathError> {
    if b == 0 {
        Err(MathError::DivideByZero)
    } else {
        Ok(a / b)
    }
}

/// `a * b`, or `Overflow`.
pub fn try_mul(a: &U256, b: &U256) -> (r: Result<U256, MathError>)
    ensures
        outcome(r) == product(a@, b@),
{
    match a.checked_mul(b) {
        Some(v) => Ok(v),
        None => Err(MathError::Overflow),
    }
}

/// `a + b`, or `Overflow`.
pub fn try_add(a: &U256, b: &U256) -> (r: Result<U256, MathError>)
    ensures
        outcome(r) == sum(a@, b@),
{
    match a.checked_add(b) {
        Some(v) => Ok(v),
        None => Err(MathError::Overflow),
    }
}

/// `a / b` rounded down, or `DivideByZero`.
pub fn try_div(a: &U256, b: &U256) -> (r: Result<U256, MathError>)
    ensures
        outcome(r) == quotient(a@, b@),
{
    match a.checked_div(b) {
        Some(v) => Ok(v),
        None => Err(MathError::DivideByZero),
    }
}

} // verus!
