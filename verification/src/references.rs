//! References and borrowing.
//!
//! A shared reference reads the value it borrows without owning it; a
//! mutable reference may change it, and a contract over `old` and `final`
//! says how. A reference returned from a function must point at data the
//! caller owns, which is why these examples hand arguments back.

use vstd::prelude::*;

verus! {

/// A datatype that does not implement `Copy`, unlike the `i32` it wraps.
pub struct IntBox(pub i32);

/// Owners can be returned, moving their value out; references to local
/// data cannot. The owners leave with their values intact.
pub fn refs_vs_owners() -> (r: (IntBox, String))
    ensures
        r.0.0 == 42,
        r.1@ == "golly"@,
{
    let x: IntBox = IntBox(42);
    let xref: &IntBox = &x;

    let s: String = String::from_str("golly");
    let sref: &String = &s;

    (x, s)
}

/// A reference that came in from the caller may be returned; it still
/// points at the caller's value.
pub fn refs_lifetime_example(arg: &i32) -> (r: &i32)
    ensures
        r == arg,
{
    let x: i32 = 42;
    let y: &i32 = &x;
    let z: &i32 = &7;
    arg
}

/// References into enclosing scopes: reading through two layers of
/// borrows yields the original values unchanged.
pub fn refs_lifetime_desugar() -> (r: (i32, i32))
    ensures
        r.0 == 0,
        r.1 == 0,
{
    let x: i32 = 0;
    let y: &i32 = &x;
    let z: &&i32 = &y;
    let v1: i32 = **z;

    let a: i32 = 0;
    let c: &i32 = &a;
    let b: &&i32 = &c;
    let v2: i32 = **b;
    (v1, v2)
}

/// The same nesting of borrows, starting from 42.
pub fn refs_lifetime_elaborated() -> (r: (i32, i32))
    ensures
        r.0 == 42,
        r.1 == 0,
{
    let x: i32 = 42;
    let y: &i32 = &x;
    let z: &&i32 = &y;
    let v1: i32 = **z;

    let a: i32 = 0;
    let c: &i32 = &a;
    let b: &&i32 = &c;
    let v2: i32 = **b;
    (v1, v2)
}

/// Explicit (`*x`) and implicit dereferencing read the same value.
pub fn reference_deferencing_example() -> (r: (u32, u32))
    ensures
        r.0 == 10,
        r.1 == r.0,
{
    let ref_x: &u32 = &10;
    let explicit: u32 = *ref_x;
    let implicit: u32 = if true {
        *ref_x
    } else {
        0
    };
    (explicit, implicit)
}

/// Any number of shared references may read the same string at once.
pub fn shared_reference_example() -> (n: usize)
    ensures
        n == 5,
{
    let s: String = String::from_str("hello");
    proof {
        reveal_strlit("hello");
    }
    let immut_ref_s1: &String = &s;
    let immut_ref_s2: &String = &s;
    immut_ref_s2.as_str().unicode_len()
}

/// Appends a suffix through a mutable reference: afterwards the referent
/// holds its old characters followed by the suffix's.
pub fn push_suffix(s: &mut String, suffix: &str)
    ensures
        final(s)@ == old(s)@ + suffix@,
{
    s.append(suffix)
}

/// A mutable reference changes the borrowed string; once its borrow
/// ends, the owner may be used (and mutated) again.
pub fn mut_reference_example() -> (s: String)
    ensures
        s@ == "hello"@ + "s"@ + "s"@,
{
    let mut s: String = String::from_str("hello");
    push_suffix(&mut s, "s");
    s.append("s");
    s
}

/// Writes a value through a mutable reference.
pub fn set_value(r: &mut i32, v: i32)
    ensures
        *final(r) == v,
{
    *r = v;
}

/// Mutable and immutable bindings combined with mutable and immutable
/// references: what each one read or wrote.
pub fn mutable_variables_and_references() -> (r: (i32, i32, i32))
    ensures
        r.0 == 2,
        r.1 == 5,
        r.2 == 5,
{
    let mut x: i32 = 2;

    let r1: &i32 = &x;
    let v1: i32 = *r1;

    let mut r2: &i32 = &x;
    r2 = &5;
    let v2: i32 = *r2;

    let mut y: i32 = 6;
    set_value(&mut y, 5);
    (v1, v2, y)
}

/// Returning an argument reference is allowed; returning a reference to
/// a local would not be, as the local is dropped on exit.
pub fn refs_example_1(arg: &i32) -> (r: &i32)
    ensures
        r == arg,
{
    let x: i32 = 42;
    let y: &i32 = &x;
    let z: &i32 = &7;
    arg
}

/// The same rule holds for references to heap-owning values.
pub fn ref_example_2(arg: &Box<i32>) -> (r: &Box<i32>)
    ensures
        r == arg,
{
    let x: Box<i32> = Box::new(42);
    let y: &Box<i32> = &x;
    arg
}

/// Borrows a string and reports its character count, leaving ownership
/// with the caller.
pub fn calculate_length(s: &String) -> (n: usize)
    ensures
        n == s@.len(),
{
    s.as_str().unicode_len()
}

/// The owner is still valid after a shared borrow ends; both the length
/// read through the borrow and the string survive.
pub fn immutable_ref() -> (r: (String, usize))
    ensures
        r.0@ == "hello"@,
        r.1 == 5,
{
    let s1: String = String::from_str("hello");
    proof {
        reveal_strlit("hello");
    }
    let len: usize = calculate_length(&s1);
    (s1, len)
}

/// Reading through a fresh reference, explicitly and implicitly.
pub fn reference_example_1() -> (r: (u32, u32))
    ensures
        r.0 == 10,
        r.1 == r.0,
{
    let x: u32 = 10;
    let ref_x: &u32 = &x;
    (*ref_x, *ref_x)
}

/// A borrowed string's length, measured through the reference.
pub fn reference_example_2() -> (len: usize)
    ensures
        len == 5,
{
    let s: String = String::from_str("hello");
    proof {
        reveal_strlit("hello");
    }
    calculate_length(&s)
}

/// A reference is read twice - once through `*`, once plainly - before
/// its referent's scope ends.
pub fn reference_lifetime_and_deferencing_example() -> (r: (u32, u32))
    ensures
        r.0 == 10,
        r.1 == r.0,
{
    let ref_x: &u32 = &10;
    (*ref_x, *ref_x)
}

/// Doubles the integer behind a shared reference.
pub fn _double(n: &i32) -> (r: i32)
    requires
        -0x4000_0000 <= *n < 0x4000_0000,
    ensures
        r == 2 * *n,
{
    *n * 2
}

/// A reference to a local is passed down one frame and read there.
pub fn _main() -> (z: i32)
    ensures
        z == 96,
{
    let x: i32 = 48;
    let y: &i32 = &x;
    _double(y)
}

} // verus!
