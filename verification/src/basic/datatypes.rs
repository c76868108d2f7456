//! Data-type walkthrough: the integer arithmetic operations and the
//! compound types (a mixed tuple and a fixed-length array).

use vstd::prelude::*;

verus! {

/// The results of the integer arithmetic demonstrations.
pub struct NumericResults {
    pub sum: i32,
    pub difference: i32,
    pub product: i32,
    pub quotient: i32,
    pub truncated: i32,
    pub remainder: i32,
}

/// Runs the arithmetic demonstrations on the walkthrough's constants:
/// addition, subtraction, multiplication, division (with its truncation
/// toward zero on a negative dividend), and remainder.
pub fn numeric_operations() -> (r: NumericResults)
    ensures
        r.sum == 9,
        r.difference == 1,
        r.product == 20,
        r.quotient == 1,
        r.truncated == -1,
        r.remainder == 1,
{
    let sum: i32 = 5 + 4;
    let difference: i32 = 5 - 4;
    let product: i32 = 5 * 4;
    let quotient: i32 = 5 / 4;
    let truncated: i32 = -(5 / 3);
    let remainder: i32 = 5 % 4;
    NumericResults { sum, difference, product, quotient, truncated, remainder }
}

/// The compound-type demonstration: builds the walkthrough's tuple of
/// three differently-typed values, destructures it, and initialises an
/// array of five threes.
pub fn data_types() -> (r: ((i32, bool, char), i32, [i32; 5]))
    ensures
        r.0 == (1i32, true, 'a'),
        r.1 == 1,
        r.2@ =~= seq![3i32, 3i32, 3i32, 3i32, 3i32],
{
    let tup: (i32, bool, char) = (1, true, 'a');
    let (x, y, z): (i32, bool, char) = tup;
    let _ = y;
    let _ = z;
    let a: [i32; 5] = [3; 5];
    (tup, x, a)
}

} // verus!
