//! Variables, functions and control flow.
//!
//! Immutable bindings, shadowing, mutable bindings, statements versus
//! expressions, and loops with `break`, each pinned down by a contract.

use vstd::prelude::*;

verus! {

/// Seconds in three hours, the constant the variable examples bind.
pub const THREE_HOURS_IN_SECONDS: u32 = 60 * 60 * 3;

/// An immutable binding is shadowed by a second `let` of the same name;
/// the value read afterwards is the one bound last.
pub fn immutable_variables() -> (x: i32)
    ensures
        x == 6,
{
    let x: i32 = 5;
    let x: i32 = 6;
    x
}

/// A `mut` binding may be reassigned; the value read afterwards is the
/// one assigned last.
pub fn mutable_variables() -> (x: i32)
    ensures
        x == 6,
{
    let mut x: i32 = 5;
    x = 6;
    x
}

/// Adds one to a positive number and two to any other.
pub fn add_one(n: i32) -> (r: i32)
    requires
        n < i32::MAX,
    ensures
        r == if n > 0 { n + 1 as int } else { n + 2 as int },
{
    if n > 0 {
        return n + 1;
    }
    n + 2
}

/// A block is an expression: `{ let x = 3; x + 1 }` evaluates to 4.
pub fn functions() -> (y: i32)
    ensures
        y == 4,
{
    let y: i32 = {
        let x: i32 = 3;
        x + 1
    };
    y
}

/// The scalar and compound types: an integer comparison chooses a
/// branch, a tuple is destructured, an array and a vector are indexed,
/// and a string grows on the heap. Returns the values read.
pub fn data_types() -> (r: (u8, i32, i32, usize))
    ensures
        r.0 == 1,
        r.1 == 3,
        r.2 == 3,
        r.3 == 14,
{
    let byte: u8 = 0;
    let whole: i64 = 20;
    let c: char = 'z';
    let flag: bool = true;

    let tup: (i32, u8) = (500, 1);
    let (a, b) = tup;
    let tup_1: u8 = tup.1;

    let arr: [i32; 5] = [3; 5];
    let arr_2: i32 = arr[2];

    let mut vec: Vec<i32> = Vec::new();
    vec.push(1);
    vec.push(2);
    vec.push(3);
    let third_element: i32 = vec[2];

    let str_version: &str = "hello";
    proof {
        reveal_strlit("hello");
        reveal_strlit(", world!");
        reveal_strlit("!");
    }
    let mut string_version: String = String::from_str(str_version);
    string_version.append(", world!");
    string_version.append("!");
    let len: usize = string_version.as_str().unicode_len();

    (tup_1, arr_2, third_element, len)
}

/// Looks an index up in a five-element array: a value exactly when the
/// index is in bounds, instead of ending the program on a bad index.
pub fn element_at(arr: &[i32; 5], index: usize) -> (r: Option<i32>)
    ensures
        index < 5 ==> r == Some(arr@[index as int]),
        index >= 5 ==> r is None,
{
    if index < 5 {
        Some(arr[index])
    } else {
        None
    }
}

/// An `if` chooses the branch its condition selects; nested loops with
/// `break` step a counter to three while an inner countdown reaches
/// zero each round; a `while` counts a number down to zero.
pub fn control_flow() -> (r: (bool, i32, i32))
    ensures
        r.0 == true,
        r.1 == 3,
        r.2 == 0,
{
    let x: bool = if 3 < 5 {
        true
    } else {
        false
    };

    let mut count: i32 = 0;
    while count < 3
        invariant
            0 <= count <= 3,
        decreases 3 - count,
    {
        let mut remaining: i32 = 5;
        while remaining > 0
            invariant
                0 <= remaining <= 5,
            decreases remaining,
        {
            remaining -= 1;
        }
        count += 1;
    }

    let mut number: i32 = 3;
    while number != 0
        invariant
            0 <= number <= 3,
        decreases number,
    {
        number -= 1;
    }

    (x, count, number)
}

} // verus!
