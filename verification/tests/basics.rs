//! Exercises the basic-feature walkthroughs: arithmetic, functions,
//! variables, control flow, and loops.

use ownership_basics::basic::control_flow::{
    control_flow_example, loop_labels, loop_return, while_countdown, while_index, Sign,
};
use ownership_basics::basic::datatypes::{data_types, numeric_operations};
use ownership_basics::basic::functions::return_function;
use ownership_basics::basic::variables::variable;

#[test]
fn numeric_operation_results() {
    let r = numeric_operations();
    assert_eq!(r.sum, 9);
    assert_eq!(r.difference, 1);
    assert_eq!(r.product, 20);
    assert_eq!(r.quotient, 1);
    assert_eq!(r.truncated, -1);
    assert_eq!(r.remainder, 1);
}

#[test]
fn return_function_adds_five() {
    assert_eq!(return_function(1), 6);
    assert_eq!(return_function(-5), 0);
}

#[test]
fn variable_walkthrough_values() {
    let (immutable, mutated, constant, spaces) = variable();
    assert_eq!(immutable, 5);
    assert_eq!(mutated, 5);
    assert_eq!(constant, 10800);
    assert_eq!(spaces, 3);
}

#[test]
fn data_type_walkthrough_values() {
    let (tup, destructured, array) = data_types();
    assert_eq!(tup, (1, true, 'a'));
    assert_eq!(destructured, 1);
    assert_eq!(array, [3, 3, 3, 3, 3]);
}

#[test]
fn branch_classification() {
    assert!(matches!(control_flow_example(7), Sign::Positive));
    assert!(matches!(control_flow_example(-7), Sign::Negative));
    assert!(matches!(control_flow_example(0), Sign::Zero));
}

#[test]
fn loop_returns_twice_the_counter() {
    assert_eq!(loop_return(), 20);
}

#[test]
fn labelled_loop_stops_at_two() {
    assert_eq!(loop_labels(), 2);
}

#[test]
fn countdown_takes_one_step_per_value() {
    assert_eq!(while_countdown(0), 0);
    assert_eq!(while_countdown(7), 7);
}

#[test]
fn indexed_walk_visits_in_order() {
    let a = [10, 20, 30, 40, 50];
    assert_eq!(while_index(&a), vec![10, 20, 30, 40, 50]);
}
