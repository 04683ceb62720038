//! Lifetimes: references as generics.
//!
//! A returned reference must carry the lifetime of an input, and a
//! struct holding a reference must not outlive the data it borrows.
//! The contracts say which input each returned reference is, and what
//! happened to the borrowed values meanwhile.

use vstd::prelude::*;

verus! {

/// Increments the integer behind the second reference and returns the
/// first reference, whose lifetime the result carries.
pub fn lifetimes_in_functions<'a, 'b>(xref: &'a i32, yref: &'b mut i32) -> (r: &'a i32)
    requires
        *old(yref) < i32::MAX,
    ensures
        *final(yref) == *old(yref) + 1,
        r == xref,
{
    *yref += 1;
    xref
}

/// Borrows one local immutably and one mutably; afterwards the first is
/// untouched and the second was incremented.
pub fn main1() -> (r: (i32, i32))
    ensures
        r.0 == 7,
        r.1 == 10,
{
    let x: i32 = 7;
    let mut y: i32 = 9;

    let zref: &i32 = lifetimes_in_functions(&x, &mut y);
    (*zref, y)
}

/// A struct holding a borrowed integer beside an owned one; the borrow
/// must outlive the struct.
pub struct NamedBorrowed<'a> {
    pub x: &'a i32,
    pub y: i32,
}

impl<'a> NamedBorrowed<'a> {
    /// Increments the owned field, leaving the borrowed one alone.
    pub fn add_one(&mut self)
        requires
            old(self).y < i32::MAX,
        ensures
            final(self).y == old(self).y + 1,
            final(self).x == old(self).x,
    {
        self.y += 1;
    }

    /// Builds the struct under a fresh lifetime parameter.
    #[allow(non_snake_case)]
    pub fn makeStruct<'b>(x: &'b i32, y: i32) -> (r: NamedBorrowed<'b>)
        ensures
            r.x == x,
            r.y == y,
    {
        NamedBorrowed { x, y }
    }
}

/// The struct borrows `x` and owns a copy of `y`; incrementing touches
/// only the owned field.
pub fn main2() -> (r: (i32, i32))
    ensures
        r.0 == 18,
        r.1 == 16,
{
    let x: i32 = 18;
    let y: i32 = 15;
    let mut double: NamedBorrowed<'_> = NamedBorrowed::makeStruct(&x, y);
    double.add_one();
    (*double.x, double.y)
}

/// Summarising borrowed text under an explicit lifetime.
pub trait Summary<'a> {
    /// The characters the summary consists of.
    spec fn summary_spec(&self) -> Seq<char>;

    /// Returns the summary, borrowed for the lifetime `'a`.
    fn summarize(&self) -> (r: &'a str)
        ensures
            r@ == self.summary_spec(),
    ;
}

/// An article borrowing its title and content.
pub struct Article<'a> {
    pub title: &'a str,
    pub content: &'a str,
}

impl<'a> Summary<'a> for Article<'a> {
    open spec fn summary_spec(&self) -> Seq<char> {
        self.title@
    }

    fn summarize(&self) -> (r: &'a str)
        ensures
            r@ == self.summary_spec(),
    {
        self.title
    }
}

/// An article summarises as its own title.
pub fn main3() -> (t: &'static str)
    ensures
        t@ == "hello"@,
{
    let article: Article<'static> = Article { title: "hello", content: "world" };
    let title: &str = article.summarize();
    title
}

} // verus!
