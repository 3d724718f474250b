//! Small arithmetic functions.

use vstd::prelude::*;

verus! {

/// Subtracts `y` from `x`; a small difference (under ten) is bumped up by ten.
pub fn sub_numbers(x: i32, y: i32) -> (result: i32)
    requires
        i32::MIN <= x - y <= i32::MAX,
    ensures
        result == if x - y < 10 {
            x - y + 10
        } else {
            x - y
        },
{
    let result = x - y;
    if result < 10 {
        return result + 10;
    }
    return result;
}

/// Multiplies the two numbers.
pub fn mult_numbers(x: i32, y: i32) -> (product: i32)
    requires
        i32::MIN <= x * y <= i32::MAX,
    ensures
        product == x * y,
{
    x * y
}

} // verus!
