//! Control-flow walkthrough: conditional branching and the three loop
//! forms (`loop` with a labelled break, `while`, and an indexed walk).

use vstd::prelude::*;

verus! {

/// Which branch of the conditional demonstration fires for an input.
pub enum Sign {
    Positive,
    Negative,
    Zero,
}

/// Classifies an integer exactly as the branching demonstration does:
/// the first branch for positive input, the second for negative input,
/// and neither for zero.
pub fn control_flow_example(x: i32) -> (r: Sign)
    ensures
        r is Positive <==> x > 0,
        r is Negative <==> x < 0,
        r is Zero <==> x == 0,
{
    if x > 0 {
        Sign::Positive
    } else if x < 0 {
        Sign::Negative
    } else {
        Sign::Zero
    }
}

/// The counting loop: a counter climbs to ten and the loop's result is
/// twice the final counter.
pub fn loop_return() -> (r: i32)
    ensures
        r == 20,
{
    let mut counter: i32 = 0;
    while counter != 10
        invariant
            0 <= counter <= 10,
        decreases 10 - counter,
    {
        counter = counter + 1;
    }
    counter * 2
}

/// The labelled-loop demonstration: the outer loop counts up while an
/// inner loop counts `remaining` down from ten and breaks at nine; once
/// the counter reaches two, the inner loop breaks out of the outer loop
/// by its label. The counter always ends at two.
pub fn loop_labels() -> (r: i32)
    ensures
        r == 2,
{
    let mut counter: i32 = 0;
    'counting_loop: loop
        invariant
            0 <= counter <= 2,
        ensures
            counter == 2,
        decreases 2 - counter,
    {
        let mut remaining: i32 = 10;
        loop
            invariant
                9 <= remaining <= 10,
                0 <= counter <= 2,
                remaining == 9 ==> counter != 2,
            ensures
                counter < 2,
            decreases remaining,
        {
            if remaining == 9 {
                break;
            }
            if counter == 2 {
                break 'counting_loop;
            }
            remaining = remaining - 1;
        }
        counter = counter + 1;
    }
    counter
}

/// The countdown demonstration: a `while` loop walks a counter from
/// `start` down to zero, one step per iteration, so the number of steps
/// taken is exactly `start`.
pub fn while_countdown(start: u32) -> (steps: u32)
    ensures
        steps == start,
{
    let mut counter: u32 = start;
    let mut steps: u32 = 0;
    while counter != 0
        invariant
            steps + counter == start,
        decreases counter,
    {
        counter = counter - 1;
        steps = steps + 1;
    }
    steps
}

/// The indexed array walk: visits the five elements in order and returns
/// them as they were visited, so the result is exactly the array's
/// contents.
pub fn while_index(a: &[i32; 5]) -> (r: Vec<i32>)
    ensures
        r@ == a@,
{
    let mut r: Vec<i32> = Vec::new();
    let mut index: usize = 0;
    while index < 5
        invariant
            index <= 5,
            a@.len() == 5,
            r@ == a@.subrange(0, index as int),
        decreases 5 - index,
    {
        r.push(a[index]);
        proof {
            assert(a@.subrange(0, index + 1) =~= a@.subrange(0, index as int).push(
                a@[index as int],
            ));
        }
        index = index + 1;
    }
    proof {
        assert(a@.subrange(0, 5) =~= a@);
    }
    r
}

} // verus!
