//! Function definitions and return values: a function computes a result
//! from its parameter and hands it back to the caller.

use vstd::prelude::*;

verus! {

/// Returns its argument increased by five, the computation the function
/// walkthrough feeds a binding through.
pub fn return_function(x: i32) -> (r: i32)
    requires
        x + 5 <= i32::MAX,
    ensures
        r == x + 5,
{
    x + 5
}

} // verus!
