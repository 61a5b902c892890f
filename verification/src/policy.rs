//! The saturating arithmetic that every balance change goes through.

use vstd::prelude::*;

verus! {

/// `a + b`, held at the largest balance an account can have.
pub open spec fn clamp_add(a: u32, b: u32) -> u32 {
    if a + b > u32::MAX {
        u32::MAX
    } else {
        (a + b) as u32
    }
}

/// `a - b`, held at zero.
pub open spec fn clamp_sub(a: u32, b: u32) -> u32 {
    if a - b < 0 {
        0
    } else {
        (a - b) as u32
    }
}

/// Adds `amount` to `balance` without leaving the `u32` range.
pub fn credit(balance: u32, amount: u32) -> (res: u32)
    ensures
        res == clamp_add(balance, amount),
{
    match balance.checked_add(amount) {
        Some(sum) => sum,
        None => u32::MAX,
    }
}

/// Takes `amount` from `balance` without going below zero.
pub fn debit(balance: u32, amount: u32) -> (res: u32)
    ensures
        res == clamp_sub(balance, amount),
{
    match balance.checked_sub(amount) {
        Some(rest) => rest,
        None => 0,
    }
}

} // verus!
