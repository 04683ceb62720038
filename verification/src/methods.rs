//! Methods and associated functions.
//!
//! A method that takes `self` by value consumes (or copies) its
//! receiver; one that takes `&self` only borrows it. Either way it
//! computes the same thing, and the two contracts say so with one
//! shared spec function.

use vstd::prelude::*;

verus! {

/// A copyable rectangle.
#[derive(Clone, Copy)]
pub struct Rectangle {
    pub width: u32,
    pub height: u32,
}

impl Rectangle {
    /// Constructs a rectangle from its two sides.
    pub fn new(width: u32, height: u32) -> (r: Self)
        ensures
            r.width == width,
            r.height == height,
    {
        Rectangle { width, height }
    }

    /// The area, with the receiver taken by value (a copy).
    pub fn area_withselfval(self) -> (a: u32)
        requires
            self.width * self.height <= u32::MAX,
        ensures
            a == self.width * self.height,
    {
        self.width * self.height
    }

    /// The area, with the receiver only borrowed.
    pub fn area_withselfref(&self) -> (a: u32)
        requires
            self.width * self.height <= u32::MAX,
        ensures
            a == self.width * self.height,
    {
        self.width * self.height
    }

    /// The area, with the receiver only borrowed.
    pub fn area(&self) -> (a: u32)
        requires
            self.width * self.height <= u32::MAX,
        ensures
            a == self.width * self.height,
    {
        self.width * self.height
    }
}

/// A message that either moves by two coordinates or writes a string.
pub enum Message {
    Move { x: i32, y: i32 },
    Write(String),
}

/// What the sum methods compute: the coordinate sum of a `Move`, and
/// zero for a `Write`.
pub open spec fn sum_spec(m: Message) -> int {
    match m {
        Message::Move { x, y } => x + y,
        Message::Write(_) => 0,
    }
}

impl Message {
    /// Constructs a `Move` message.
    pub fn new(x: i32, y: i32) -> (m: Self)
        ensures
            m == (Message::Move { x, y }),
    {
        Message::Move { x, y }
    }

    /// The coordinate sum, consuming the receiver.
    pub fn sum_withselfval(self) -> (s: i32)
        requires
            i32::MIN <= sum_spec(self) <= i32::MAX,
        ensures
            s == sum_spec(self),
    {
        match self {
            Message::Move { x, y } => x + y,
            Message::Write(s) => 0,
        }
    }

    /// The coordinate sum, borrowing the receiver.
    pub fn sum_withselfref(&self) -> (s: i32)
        requires
            i32::MIN <= sum_spec(*self) <= i32::MAX,
        ensures
            s == sum_spec(*self),
    {
        match self {
            Message::Move { x: x_ref, y: y_ref } => *x_ref + *y_ref,
            Message::Write(s_ref) => 0,
        }
    }
}

/// Both area methods agree on a five-by-five rectangle, because one
/// copies the receiver and the other borrows it.
pub fn using_methods_example_1() -> (r: (u32, u32))
    ensures
        r.0 == 25,
        r.1 == 25,
{
    let r: Rectangle = Rectangle::new(5, 5);
    let area1: u32 = r.area_withselfval();
    let area2: u32 = r.area_withselfref();
    (area1, area2)
}

/// Summing by value consumes the message; summing by reference leaves
/// it usable, so it can be moved afterwards.
pub fn using_methods_example_2() -> (r: (i32, i32))
    ensures
        r.0 == 10,
        r.1 == 10,
{
    let m: Message = Message::new(5, 5);
    let x1: i32 = m.sum_withselfval();

    let m: Message = Message::new(5, 5);
    let x2: i32 = m.sum_withselfref();
    let m2: Message = m;
    (x1, x2)
}

} // verus!
