//! Bounds and differences of sizes.

use vstd::prelude::*;

verus! {

/// The smaller of two numbers.
pub open spec fn at_most(a: int, b: int) -> int {
    if a < b {
        a
    } else {
        b
    }
}

/// The larger of two numbers.
pub open spec fn at_least(a: int, b: int) -> int {
    if a < b {
        b
    } else {
        a
    }
}

/// `a - b`, but not below zero.
pub open spec fn minus(a: int, b: int) -> int {
    if a > b {
        a - b
    } else {
        0
    }
}

/// `a - b`, but not below zero nor below `low`.
pub open spec fn room(a: int, b: int, low: int) -> int {
    at_least(minus(a, b), low)
}

/// The number itself, or the largest `usize`.
pub open spec fn sat(n: int) -> int {
    if n > usize::MAX {
        usize::MAX as int
    } else {
        n
    }
}

pub fn min_of(a: usize, b: usize) -> (r: usize)
    ensures
        r == at_most(a as int, b as int),
{
    if a < b {
        a
    } else {
        b
    }
}

pub fn max_of(a: usize, b: usize) -> (r: usize)
    ensures
        r == at_least(a as int, b as int),
{
    if a < b {
        b
    } else {
        a
    }
}

pub fn room_of(a: usize, b: usize, low: usize) -> (r: usize)
    ensures
        r == room(a as int, b as int, low as int),
{
    max_of(a.saturating_sub(b), low)
}

} // verus!
