//! Runs the ownership walkthrough and checks every observable value of
//! the script, plus the end-to-end borrowing scenarios.

use ownership_basics::ownership::intro_to_ownership::{
    change, deep_copy, deep_copy_independent, intro_to_ownership, intro_to_string,
    mutable_reference, return_ownership, return_ownership_tup, stack_copy, takes_ownership,
    with_reference,
};

#[test]
fn walkthrough_script_values() {
    let r = intro_to_ownership();
    assert_eq!(r.scoped, "hello");
    assert_eq!(r.strings.appended, "hello,world!");
    assert_eq!(r.strings.copy_original, 5);
    assert_eq!(r.strings.copy_duplicate, 5);
    assert_eq!(r.strings.moved, "hello");
    assert_eq!(r.strings.reassigned, "hyo");
    assert_eq!(r.strings.consumed_len, 3);
    assert_eq!(r.strings.round_trip, "hello");
    assert_eq!(r.strings.measured_len, 5);
    assert_eq!(r.strings.measured, "hello");
    assert_eq!(r.strings.observed_len, 5);
    assert_eq!(r.strings.changed, "hello, worl");
}

#[test]
fn string_script_matches_walkthrough() {
    let r = intro_to_string();
    assert_eq!(r.appended, "hello,world!");
    assert_eq!(r.changed, "hello, worl");
}

#[test]
fn grow_observe_and_change_scenario() {
    // construct "hello" and append ",world!"
    let mut s = String::from("hello");
    s.push_str(",world!");
    assert_eq!(s, "hello,world!");

    // a read-only reference observes without consuming: the original
    // stays usable and unchanged after the call
    let observed = with_reference(&s);
    assert_eq!(observed, 12);
    assert_eq!(s, "hello,world!");

    // an exclusive reference appends ", world" and removes the last
    // character in place
    let mut t = String::from("hello");
    change(&mut t);
    assert_eq!(t, "hello, worl");
}

#[test]
fn stack_copy_keeps_both_values() {
    let (original, duplicate) = stack_copy(42);
    assert_eq!(original, 42);
    assert_eq!(duplicate, 42);
}

#[test]
fn deep_copy_has_equal_content() {
    let s = String::from("hyo");
    let copy = deep_copy(&s);
    assert_eq!(copy, "hyo");
    assert_eq!(s, "hyo");
}

#[test]
fn deep_copy_is_independent() {
    let s = String::from("hello");
    let (original, grown) = deep_copy_independent(s, " world");
    assert_eq!(original, "hello");
    assert_eq!(grown, "hello world");
}

#[test]
fn ownership_into_function_measures_value() {
    let s = String::from("hello");
    assert_eq!(takes_ownership(s), 5);
}

#[test]
fn ownership_returned_is_same_value() {
    let s = String::from("hello");
    let s = return_ownership(s);
    assert_eq!(s, "hello");
}

#[test]
fn tuple_return_carries_size_and_value() {
    let s = String::from("hello");
    let (len, s) = return_ownership_tup(s);
    assert_eq!(len, 5);
    assert_eq!(s, "hello");
}

#[test]
fn with_reference_leaves_caller_value() {
    let s = String::from("hello");
    let n = with_reference(&s);
    assert_eq!(n, 5);
    assert_eq!(s, "hello");
}

#[test]
fn mutable_reference_changes_in_place() {
    assert_eq!(mutable_reference(), "hello, worl");
}

#[test]
fn change_appends_then_pops() {
    let mut s = String::from("abc");
    change(&mut s);
    assert_eq!(s, "abc, worl");
}

#[test]
fn change_on_empty_value() {
    let mut s = String::new();
    change(&mut s);
    assert_eq!(s, ", worl");
}
