//! Small exercises on borrowed and mutable integer values.

use vstd::prelude::*;

verus! {

/// Tells whether the referenced value is exactly five.
pub fn is_five(x: &i32) -> (r: bool)
    ensures
        r == (*x == 5),
{
    *x == 5
}

/// Exchanges the values behind the two references.
pub fn swap(a: &mut i32, b: &mut i32)
    ensures
        *final(a) == *old(b),
        *final(b) == *old(a),
{
    let tmp: i32 = *a;
    *a = *b;
    *b = tmp;
}

/// Adds `a` to `b`, doubles the sum, and stores the result in `b`.
pub fn add_and_multiply(a: &i32, b: &mut i32)
    requires
        i32::MIN <= (*a + *old(b)) * 2 <= i32::MAX,
    ensures
        *final(b) == (*a + *old(b)) * 2,
{
    let sum: i32 = *a + *b;
    *b = sum * 2;
}

} // verus!
