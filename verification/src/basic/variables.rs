//! Variable walkthrough: immutable bindings, mutation through `mut`,
//! constants, and shadowing a binding with a value of another type.

use vstd::prelude::*;

verus! {

pub const THREE_HOURS_IN_SECONDS: u32 = 60 * 60 * 3;

/// Runs the variable demonstrations and returns their observable values:
/// the immutable binding, the mutable binding after its update, the
/// constant, and the shadowed binding (three spaces shadowed by their
/// count).
pub fn variable() -> (r: (i8, i32, u32, usize))
    ensures
        r.0 == 5,
        r.1 == 5,
        r.2 == 10800,
        r.3 == 3,
{
    let x: i8 = 5;
    let mut y: i32 = 4;
    y = 5;
    let spaces = "   ";
    proof {
        reveal_strlit("   ");
    }
    let spaces: usize = spaces.unicode_len();
    (x, y, THREE_HOURS_IN_SECONDS, spaces)
}

} // verus!
