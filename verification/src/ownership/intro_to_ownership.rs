//! The ownership walkthrough: a fixed script of demonstrations of
//! scope-based lifetime, heap-value creation and growth, stack copies,
//! moves, re-assignment, deep copies, passing and returning ownership,
//! and borrowing. Each step's observable value is returned and pinned
//! by the contracts; the console narration around the script lives
//! outside the library.

use vstd::prelude::*;

verus! {

/// The observable values of the string part of the walkthrough, in
/// script order.
pub struct StringReport {
    /// the heap value built from a literal and grown in place
    pub appended: String,
    /// a fixed-size value and the stack copy made of it
    pub copy_original: i32,
    pub copy_duplicate: i32,
    /// the heap value, reachable only through its new owner after a move
    pub moved: String,
    /// the value a mutable name holds after re-assignment released its
    /// first value; still usable after its deep copy was given away
    pub reassigned: String,
    /// the length the callee measured of the deep copy it took
    /// ownership of
    pub consumed_len: usize,
    /// the value whose ownership a callee transferred back
    pub round_trip: String,
    /// a computed size returned alongside the value as one tuple
    pub measured_len: usize,
    pub measured: String,
    /// the length observed through a read-only reference; the referent
    /// itself stays with the caller, unchanged
    pub observed_len: usize,
    /// the value after the exclusive-reference demonstration grew and
    /// then shrank it in place
    pub changed: String,
}

/// The observable values of the whole walkthrough: the scope
/// demonstration's surviving value, then the string script.
pub struct WalkthroughReport {
    pub scoped: String,
    pub strings: StringReport,
}

/// The values the string script must produce, stated once and shared by
/// every level of the walkthrough's contract.
pub open spec fn script_values(r: StringReport) -> bool {
    &&& r.appended@ == "hello,world!"@
    &&& r.copy_original == 5
    &&& r.copy_duplicate == 5
    &&& r.moved@ == "hello"@
    &&& r.reassigned@ == "hyo"@
    &&& r.consumed_len == 3
    &&& r.round_trip@ == "hello"@
    &&& r.measured_len == 5
    &&& r.measured@ == "hello"@
    &&& r.observed_len == 5
    &&& r.changed@ == "hello, worl"@
}

/// The values the whole walkthrough must produce.
pub open spec fn walkthrough_values(r: WalkthroughReport) -> bool {
    &&& r.scoped@ == "hello"@
    &&& script_values(r.strings)
}

/// Runs the whole ownership walkthrough in its fixed order. Every
/// observable value of the script is pinned by the contract.
pub fn intro_to_ownership() -> (r: WalkthroughReport)
    ensures
        walkthrough_values(r),
{
    basic_ownership()
}

/// The scope demonstration: a value created inside a nested block is
/// gone once the block ends, while a value created outside survives it.
/// The surviving value is handed on by transferring ownership of a
/// fresh heap copy of it — the only way to return a locally created
/// heap value.
pub fn basic_ownership() -> (r: WalkthroughReport)
    ensures
        walkthrough_values(r),
{
    let s = "hello";
    {
        let s1 = "hello";
        let _ = s1;
    }  // s1's scope ends here; s lives on
    let scoped = String::from_str(s);
    let strings = intro_to_string();
    WalkthroughReport { scoped, strings }
}

/// The string script: heap creation and growth, stack copy, move,
/// re-assignment, deep copy, ownership into and out of functions, a
/// tuple return, a read-only borrow, and the exclusive-borrow
/// demonstration.
pub fn intro_to_string() -> (r: StringReport)
    ensures
        script_values(r),
{
    // a growable heap value, built from a literal and mutated in place
    let mut s = String::from_str("hello");
    s.append(",world!");
    proof {
        reveal_strlit("hello");
        reveal_strlit(",world!");
        reveal_strlit("hello,world!");
        assert("hello"@ + ",world!"@ =~= "hello,world!"@);
    }
    let appended = s;

    // a fixed-size value is copied, not moved: both stay usable
    let (copy_original, copy_duplicate) = stack_copy(5);

    // a heap value is moved: ownership passes to the new binding, and
    // only that binding may be used afterwards
    let s1 = String::from_str("hello");
    let s2 = s1;
    let moved = s2;

    // re-assignment: binding a new value to a mutable name releases the
    // value it held before
    let mut s3 = String::from_str("hello");
    s3 = String::from_str("hyo");

    // a deep copy duplicates the heap buffer: s3 and the copy are both
    // usable afterwards; the copy's ownership then goes into a function
    // and the copy is released there, while s3 lives on untouched
    let cloned = deep_copy(&s3);
    let consumed_len = takes_ownership(cloned);
    proof {
        reveal_strlit("hyo");
    }
    let surviving = s3;

    // ownership can come back out of a function
    let mut s4 = String::from_str("hello");
    s4 = return_ownership(s4);
    let round_trip = deep_copy(&s4);

    // several values can come back at once as a tuple
    let (measured_len, measured) = return_ownership_tup(s4);

    // a read-only reference lets a callee observe the value while the
    // caller keeps ownership: `measured` is still usable afterwards
    let observed_len = with_reference(&measured);

    // an exclusive reference lets a callee mutate in place
    let changed = mutable_reference();

    StringReport {
        appended,
        copy_original,
        copy_duplicate,
        moved,
        reassigned: surviving,
        consumed_len,
        round_trip,
        measured_len,
        measured,
        observed_len,
        changed,
    }
}

/// The stack-copy law: copying a fixed-size value leaves the original
/// and the copy both usable, and equal to the value copied.
pub fn stack_copy(x: i32) -> (r: (i32, i32))
    ensures
        r.0 == x,
        r.1 == x,
{
    let y: i32 = x;
    (x, y)
}

/// The deep-copy law: duplicating a heap-owning value yields a second,
/// independently owned value with the same content.
pub fn deep_copy(s: &String) -> (r: String)
    ensures
        r@ == s@,
{
    s.clone()
}

/// The deep-copy independence law: after duplicating a value and
/// growing only the duplicate, the original comes back unchanged beside
/// the grown copy — the two share no buffer.
pub fn deep_copy_independent(s: String, suffix: &str) -> (r: (String, String))
    ensures
        r.0 == s,
        r.1@ == s@ + suffix@,
{
    let mut copy = s.clone();
    copy.append(suffix);
    (s, copy)
}

/// Takes ownership of its argument and measures it; the caller's
/// binding is unusable after this call, and the value is released here.
pub fn takes_ownership(some_string: String) -> (n: usize)
    ensures
        n == some_string@.len(),
{
    some_string.as_str().unicode_len()
}

/// Receives ownership and transfers it straight back to the caller:
/// the result is the very value passed in.
pub fn return_ownership(some_string: String) -> (r: String)
    ensures
        r == some_string,
{
    some_string
}

/// Receives ownership and returns it together with a computed size, as
/// one tuple for the caller to destructure.
pub fn return_ownership_tup(some_string: String) -> (r: (usize, String))
    ensures
        r.0 == some_string@.len(),
        r.1 == some_string,
{
    let len = some_string.as_str().unicode_len();
    (len, some_string)
}

/// Observes a value through a read-only reference without taking
/// ownership: the caller's binding remains valid and untouched.
pub fn with_reference(some_string: &String) -> (n: usize)
    ensures
        n == some_string@.len(),
{
    some_string.as_str().unicode_len()
}

/// The exclusive-borrow demonstration: a callee mutates "hello" in
/// place through an exclusive reference, and two further exclusive
/// references are taken in sequence — each one's scope ends before the
/// next begins, as the exclusivity rule demands.
pub fn mutable_reference() -> (r: String)
    ensures
        r@ == "hello, worl"@,
{
    let mut s = String::from_str("hello");
    change(&mut s);
    proof {
        reveal_strlit("hello");
        reveal_strlit(", worl");
        reveal_strlit("hello, worl");
        assert("hello"@ + ", worl"@ =~= "hello, worl"@);
    }

    let mut s2 = String::from_str("hello");
    {
        let r1 = &mut s2;
        let _ = r1;
    }  // r1's scope ends here, so a new reference may be created
    let r2 = &mut s2;
    let _ = r2;

    s
}

/// Mutates the referent in place through an exclusive reference:
/// appends ", world" and then removes the last character, so the text
/// grows by exactly ", worl".
pub fn change(some_string: &mut String)
    ensures
        final(some_string)@ == old(some_string)@ + ", worl"@,
{
    some_string.append(", world");
    let popped = pop_char(some_string);
    let _ = popped;
    proof {
        reveal_strlit(", world");
        reveal_strlit(", worl");
        assert((old(some_string)@ + ", world"@).drop_last() =~= old(some_string)@ + ", worl"@);
    }
}

/// Relies on String::pop: removes and returns the last character of the
/// text, or returns None when the text is empty.
#[verifier::external_body]
fn pop_char(s: &mut String) -> (r: Option<char>)
    ensures
        old(s)@.len() == 0 ==> r is None && final(s)@ == old(s)@,
        old(s)@.len() > 0 ==> r == Some(old(s)@.last()) && final(s)@ == old(s)@.drop_last(),
{
    s.pop()
}

} // verus!
