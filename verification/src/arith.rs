//! Small arithmetic helpers with exact contracts.

use vstd::prelude::*;

verus! {

/// Returns the constant five.
pub fn five() -> (r: i32)
    ensures
        r == 5,
{
    5
}

/// Returns its argument plus one.
pub fn plus_one(x: i32) -> (r: i32)
    requires
        x < i32::MAX,
    ensures
        r == x + 1,
{
    x + 1
}

/// Returns the sum and the product of the two arguments as a pair.
pub fn calculate_sum_and_product(a: i32, b: i32) -> (r: (i32, i32))
    requires
        i32::MIN <= a + b <= i32::MAX,
        i32::MIN <= a * b <= i32::MAX,
    ensures
        r.0 == a + b,
        r.1 == a * b,
{
    (a + b, a * b)
}

} // verus!
