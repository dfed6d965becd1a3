//! Elementary arithmetic on machine-word integers.
//!
//! Each operation is a pure, stateless computation on two operands of
//! matching width, returning exactly the mathematical result. Overflow and
//! underflow are not handled: the preconditions keep every result within
//! the machine word, so the functions never panic.

use vstd::prelude::*;

verus! {

/// Returns the sum of the two operands.
///
/// The sum must fit in a machine word; the result is then exactly the
/// mathematical sum.
pub fn add(left: usize, right: usize) -> (sum: usize)
    requires
        left + right <= usize::MAX,
    ensures
        sum == left + right,
{
    left + right
}

/// Returns the difference of the two operands.
///
/// The subtrahend must not exceed the minuend; the result is then exactly
/// the mathematical difference.
pub fn subtract(left: usize, right: usize) -> (difference: usize)
    requires
        right <= left,
    ensures
        difference == left - right,
{
    left - right
}

} // verus!
