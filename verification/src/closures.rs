//! Closures: functions as values that capture their environment.
//!
//! A closure carries a contract just as a named function does, and the
//! values it captured - moved, copied or borrowed in - are fixed at the
//! point it was built, so its contract can name them.

use vstd::prelude::*;

verus! {

/// A named function: part of the static environment any function sees.
pub fn one_fn() -> (r: u32)
    ensures
        r == 1,
{
    1
}

/// A named function may call other named functions, but not read the
/// caller's locals.
pub fn add_one_fundef(y: u32) -> (r: u32)
    requires
        y < u32::MAX,
    ensures
        r == y + 1,
{
    y + one_fn()
}

/// A closure may read a local from the scope it was defined in; this
/// one adds the captured local to its argument.
pub fn closures_vs_fns() -> (two: u32)
    ensures
        two == 2,
{
    let one_var: u32 = 1;

    let add_one_lamdef = |y: u32| -> (r: u32)
        requires
            y < u32::MAX,
        ensures
            r == y + 1,
        {
            y + one_var
        };
    let two: u32 = add_one_lamdef(1);
    two
}

/// A `move` closure takes the vector by move and the integer by copy;
/// the copied integer stays usable outside.
pub fn closure_move_in() -> (r: (i32, i32))
    ensures
        r.0 == 3,
        r.1 == 2,
{
    let x: i32 = 2;
    let mut xs: Vec<i32> = Vec::new();
    xs.push(1);
    xs.push(2);
    xs.push(3);

    let fn_move_in = move || -> (r: i32)
        ensures
            r == 3,
        {
            xs[0] + x
        };
    let v: i32 = fn_move_in();
    (v, x)
}

/// A plain closure borrows the vector; once the call returns, the
/// vector is usable (and unchanged) outside.
pub fn closure_immutborrow_in() -> (r: (usize, Vec<i32>))
    ensures
        r.0 == 3,
        r.1@ == seq![1i32, 2i32, 3i32],
{
    let x: i32 = 2;
    let mut xs: Vec<i32> = Vec::new();
    xs.push(1);
    xs.push(2);
    xs.push(3);

    let fn_borrow_immut = || -> (n: usize)
        ensures
            n == 3,
        {
            xs.len()
        };
    let n: usize = fn_borrow_immut();
    (n, xs)
}

/// A closure that returns its captures moves them out of its body, so
/// it can be called only once; the values arrive intact.
pub fn closure_move_out() -> (r: (Vec<i32>, i32))
    ensures
        r.0@ == seq![1i32, 2i32, 3i32],
        r.1 == 2,
{
    let x: i32 = 2;
    let mut xs: Vec<i32> = Vec::new();
    xs.push(1);
    xs.push(2);
    xs.push(3);
    assert(xs@ =~= seq![1i32, 2i32, 3i32]);

    let fn_move_out = move || -> (r: (Vec<i32>, i32))
        ensures
            r.0@ == seq![1i32, 2i32, 3i32],
            r.1 == 2,
        {
            (xs, x)
        };
    fn_move_out()
}

} // verus!
