//! The counter's rules on plain values: the bound, the error, and the step
//! from a stored entry to the next one.

use vstd::prelude::*;

verus! {

/// The largest amount that one increment may add.
pub const MAX: u32 = 10;

/// Why an increment was turned down.
#[derive(Clone, Copy, Debug, PartialEq, Eq, PartialOrd, Ord, Structural)]
pub enum Error {
    /// The amount asked for is larger than `MAX`.
    MaxValueExceeded,
}

/// The count that a store entry stands for: an absent entry counts as zero.
pub open spec fn count_of(entry: Option<u32>) -> nat {
    match entry {
        Some(count) => count as nat,
        None => 0,
    }
}

/// How an increment by `value` ends for an identity whose entry is `entry`.
///
/// An amount above `MAX` is turned down whatever the entry holds. The bound is
/// on the amount, not on the sum, so a count may grow past `MAX` over several
/// increments. `None` stands for the one case with no answer: the sum does not
/// fit in a `u32`.
pub open spec fn increment_result(entry: Option<u32>, value: u32) -> Option<Result<u32, Error>> {
    if value > MAX {
        Some(Err(Error::MaxValueExceeded))
    } else if count_of(entry) + value > u32::MAX {
        None
    } else {
        Some(Ok((count_of(entry) + value) as u32))
    }
}

/// The adder that the counter uses for its one arithmetic step.
pub struct AdditionContract;

impl AdditionContract {
    /// The sum of `a` and `b`, for operands whose sum fits in a `u32`.
    pub fn add(a: u32, b: u32) -> (sum: u32)
        requires
            a + b <= u32::MAX,
        ensures
            sum == a + b,
    {
        a + b
    }
}

/// The count read from a store entry.
pub fn stored_count(entry: Option<u32>) -> (count: u32)
    ensures
        count == count_of(entry),
{
    match entry {
        Some(count) => count,
        None => 0,
    }
}

/// Decides one increment from the entry that the store gave.
pub fn step(entry: Option<u32>, value: u32) -> (result: Option<Result<u32, Error>>)
    ensures
        result == increment_result(entry, value),
{
    if value > MAX {
        return Some(Err(Error::MaxValueExceeded));
    }
    let count: u32 = stored_count(entry);
    if count > u32::MAX - value {
        None
    } else {
        Some(Ok(AdditionContract::add(count, value)))
    }
}

} // verus!
