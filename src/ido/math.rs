//! Checked arithmetic that fails with the sale's own errors.
use vstd::prelude::*;

verus! {

use crate::ido::error::Error;

/// `a + b`, or `Overflow`.
pub fn error_add(a: u64, b: u64) -> (r: Result<u64, Error>)
    ensures
        r == (if a + b <= u64::MAX {
            Ok::<u64, Error>((a + b) as u64)
        } else {
            Err(Error::Overflow)
        }),
{
    match a.checked_add(b) {
        Some(v) => Ok(v),
        None => Err(Error::Overflow),
    }
}

/// `a - b`, or `Underflow`.
pub fn error_sub(a: u64, b: u64) -> (r: Result<u64, Error>)
    ensures
        r == (if a >= b {
            Ok::<u64, Error>((a - b) as u64)
        } else {
            Err(Error::Underflow)
        }),
{
    match a.checked_sub(b) {
        Some(v) => Ok(v),
        None => Err(Error::Underflow),
    }
}

/// `a * b`, or `Overflow`.
pub fn error_mul(a: u128, b: u128) -> (r: Result<u128, Error>)
    ensures
        r == (if a * b <= u128::MAX {
            Ok::<u128, Error>((a * b) as u128)
        } else {
            Err(Error::Overflow)
        }),
{
    match a.checked_mul(b) {
        Some(v) => Ok(v),
        None => Err(Error::Overflow),
    }
}

/// `a / b` (floored), or `DivisionByZero`.
pub fn error_div(a: u128, b: u128) -> (r: Result<u128, Error>)
    ensures
        r == (if b != 0 {
            Ok::<u128, Error>((a / b) as u128)
        } else {
            Err(Error::DivisionByZero)
        }),
{
    match a.checked_div(b) {
        Some(v) => Ok(v),
        None => Err(Error::DivisionByZero),
    }
}

} // verus!
