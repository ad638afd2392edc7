use vstd::prelude::*;

verus! {

/// The sum of two 32-bit integers that has room in 32 bits.
pub fn add(first: i32, second: i32) -> (sum: i32)
    requires
        i32::MIN <= first + second <= i32::MAX,
    ensures
        sum == first + second,
{
    first + second
}

} // verus!
