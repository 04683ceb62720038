//! Ownership: owners, scopes, and the three ways a value moves on.
//!
//! A move, a copy and a clone all preserve the value itself; the contracts
//! here say exactly that. What differs is which bindings stay usable, which
//! the bodies demonstrate and the borrow checker enforces.

use vstd::prelude::*;

verus! {

/// Copies a machine integer and adds one to the copy.
pub fn add_one(x: i32) -> (r: i32)
    requires
        x < i32::MAX,
    ensures
        r == x + 1,
{
    let mut y: i32 = x;
    y += 1;
    y
}

/// Takes ownership of a vector, pushes 4, and hands ownership back.
pub fn add_ones(vecmut: Vec<i32>) -> (r: Vec<i32>)
    ensures
        r@ == vecmut@.push(4),
{
    let mut v: Vec<i32> = vecmut;
    v.push(4);
    v
}

/// A stack value is copied into a callee; a heap-owning vector is moved
/// in and back out. Returns the incremented copy and the pushed element.
pub fn owner_example() -> (r: (i32, i32))
    ensures
        r.0 == 43,
        r.1 == 4,
{
    let x1: i32 = 42;
    let x2: i32 = add_one(x1);

    let mut vec1: Vec<i32> = Vec::new();
    vec1.push(1);
    vec1.push(2);
    vec1.push(3);
    let vec2: Vec<i32> = add_ones(vec1);
    (x2, vec2[3])
}

/// Values dropped at the end of an inner scope are gone, but what was
/// computed from them survives: the string's length and the integer.
pub fn ownership_scope_example() -> (r: (usize, u32))
    ensures
        r.0 == 5,
        r.1 == 5,
{
    let len: usize = {
        let s: String = String::from_str("hello");
        proof {
            reveal_strlit("hello");
        }
        s.as_str().unicode_len()
    };
    let x: u32 = {
        let x: u32 = 5;
        x
    };
    (len, x)
}

/// A move transfers ownership of the heap data without changing it:
/// the new owner holds exactly the characters the old owner held.
pub fn move_data() -> (s2: String)
    ensures
        s2@ == "hello"@,
{
    let s1: String = String::from_str("hello");
    let s2: String = s1;
    s2
}

/// A copy leaves both bindings valid and equal.
pub fn copy_data() -> (r: (i32, i32))
    ensures
        r.0 == 5,
        r.1 == r.0,
{
    let x: i32 = 5;
    let y: i32 = x;
    (x, y)
}

/// A clone allocates a second, independent copy holding the same value.
pub fn clone_data() -> (r: (String, String))
    ensures
        r.0@ == "hello"@,
        r.1 == r.0,
{
    let s1: String = String::from_str("hello");
    let s2: String = s1.clone();
    (s1, s2)
}

/// Consumes a string, reporting how many characters it held.
pub fn takes_ownership(some_string: String) -> (n: usize)
    ensures
        n == some_string@.len(),
{
    some_string.as_str().unicode_len()
}

/// Receives a copy of an integer and returns it unchanged.
pub fn makes_copy(some_integer: i32) -> (r: i32)
    ensures
        r == some_integer,
{
    some_integer
}

/// Passing a `String` argument moves it; passing an `i32` copies it,
/// so `x` is still valid afterwards and is returned.
pub fn ownership_in_function_calls() -> (x: i32)
    ensures
        x == 5,
{
    let s: String = String::from_str("hello");
    let _n: usize = takes_ownership(s);

    let x: i32 = 5;
    let _c: i32 = makes_copy(x);
    x
}

/// Builds a string locally and moves it out to the caller.
pub fn gives_ownership() -> (s: String)
    ensures
        s@ == "yours"@,
{
    let some_string: String = String::from_str("yours");
    some_string
}

/// Takes ownership and returns the very same value.
pub fn takes_and_gives_back(a_string: String) -> (r: String)
    ensures
        r == a_string,
{
    a_string
}

/// Ownership arrives via one return and passes through another call,
/// unchanged in both cases.
pub fn ownership_in_function_returns() -> (r: (String, String))
    ensures
        r.0@ == "yours"@,
        r.1@ == "hello"@,
{
    let s1: String = gives_ownership();
    let s2: String = String::from_str("hello");
    let s3: String = takes_and_gives_back(s2);
    (s1, s3)
}

/// A borrowed literal and a `String` built from it inside one scope;
/// both spell the same five characters.
pub fn variable_scope() -> (r: (usize, usize))
    ensures
        r.0 == 5,
        r.1 == r.0,
{
    let s_immutable: &str = "hello";
    proof {
        reveal_strlit("hello");
    }
    let s_mutable: String = String::from_str(s_immutable);
    (s_immutable.unicode_len(), s_mutable.as_str().unicode_len())
}

/// Moving heap data: the new owner's characters are the old owner's.
pub fn move_dynamic_data() -> (s2: String)
    ensures
        s2@ == "hello"@,
{
    let s1: String = String::from_str("hello");
    let s2: String = s1;
    s2
}

/// Cloning heap data: two owners, one value.
pub fn clone_dynamic_data() -> (r: (String, String))
    ensures
        r.0@ == "hello"@,
        r.1 == r.0,
{
    let s1: String = String::from_str("hello");
    let s2: String = s1.clone();
    (s1, s2)
}

/// Copying stack data: two bindings, one value.
pub fn copy_static_data() -> (r: (i32, i32))
    ensures
        r.0 == 5,
        r.1 == r.0,
{
    let x: i32 = 5;
    let y: i32 = x;
    (x, y)
}

} // verus!
