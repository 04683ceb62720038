//! Iteration: walking a sequence by borrow, by mutable borrow, and by
//! ownership.
//!
//! The state-machine view of iteration is explicit here: `Fibonacci`
//! carries the iterator state and `next` advances it under a contract.
//! The walks over vectors are loops whose invariants track exactly the
//! prefix already visited.

use vstd::prelude::*;

verus! {

/// The state of a Fibonacci sequence: the current number and its
/// successor.
pub struct Fibonacci {
    pub curr: u32,
    pub next: u32,
}

impl Fibonacci {
    /// The sequence's starting state.
    pub fn new() -> (f: Fibonacci)
        ensures
            f.curr == 0,
            f.next == 1,
    {
        Fibonacci { curr: 0, next: 1 }
    }

    /// Advances the state one step and yields the number passed over.
    /// The sequence never ends, so there is always a value.
    pub fn next(&mut self) -> (r: Option<u32>)
        requires
            old(self).curr + old(self).next <= u32::MAX,
        ensures
            final(self).curr == old(self).next,
            final(self).next == old(self).curr + old(self).next,
            r == Some(old(self).curr),
    {
        let current: u32 = self.curr;
        self.curr = self.next;
        self.next = current + self.next;
        Some(current)
    }
}

/// Walks a vector by shared borrow, summing it; the vector survives
/// unchanged beside the sum.
pub fn borrowing_iterator() -> (r: (Vec<i32>, i32))
    ensures
        r.0@ == seq![1i32, 2i32, 3i32],
        r.1 == 6,
{
    let mut v: Vec<i32> = Vec::new();
    v.push(1);
    v.push(2);
    v.push(3);

    let mut total: i32 = 0;
    let mut i: usize = 0;
    while i < v.len()
        invariant
            v@ == seq![1i32, 2i32, 3i32],
            0 <= i <= 3,
            total == (if i == 0 { 0int } else if i == 1 { 1int } else if i == 2 { 3int } else { 6int }),
        decreases v.len() - i,
    {
        total += v[i];
        i += 1;
    }
    (v, total)
}

/// Walks a vector by mutable borrow, adding one to each element in
/// place.
pub fn mutably_borrowing_iterator() -> (v: Vec<i32>)
    ensures
        v@ == seq![2i32, 3i32, 4i32],
{
    let mut v: Vec<i32> = Vec::new();
    v.push(1);
    v.push(2);
    v.push(3);

    let ghost orig: Seq<i32> = v@;
    let mut i: usize = 0;
    while i < v.len()
        invariant
            orig == seq![1i32, 2i32, 3i32],
            v@.len() == 3,
            0 <= i <= 3,
            forall|j: int| 0 <= j < i ==> v@[j] == orig[j] + 1,
            forall|j: int| i <= j < 3 ==> v@[j] == orig[j],
        decreases v.len() - i,
    {
        let x: i32 = v[i];
        v.set(i, x + 1);
        i += 1;
    }
    assert(v@ =~= seq![2i32, 3i32, 4i32]);
    v
}

/// Consumes a vector, building a new one whose elements are each one
/// larger than the originals.
pub fn owning_iterator() -> (w: Vec<i32>)
    ensures
        w@ == seq![2i32, 3i32, 4i32],
{
    let mut v: Vec<i32> = Vec::new();
    v.push(1);
    v.push(2);
    v.push(3);

    let mut w: Vec<i32> = Vec::new();
    let mut i: usize = 0;
    while i < v.len()
        invariant
            v@ == seq![1i32, 2i32, 3i32],
            0 <= i <= 3,
            w@.len() == i,
            forall|j: int| 0 <= j < i ==> w@[j] == v@[j] + 1,
        decreases v.len() - i,
    {
        let x: i32 = v[i];
        w.push(x + 1);
        i += 1;
    }
    assert(w@ =~= seq![2i32, 3i32, 4i32]);
    w
}

/// Consumes the walk in a single reduction: the sum of one, two and
/// three.
pub fn iterator_sum() -> (total: i32)
    ensures
        total == 6,
{
    let mut v1: Vec<i32> = Vec::new();
    v1.push(1);
    v1.push(2);
    v1.push(3);

    let mut total: i32 = 0;
    let mut i: usize = 0;
    while i < v1.len()
        invariant
            v1@ == seq![1i32, 2i32, 3i32],
            0 <= i <= 3,
            total == (if i == 0 { 0int } else if i == 1 { 1int } else if i == 2 { 3int } else { 6int }),
        decreases v1.len() - i,
    {
        total += v1[i];
        i += 1;
    }
    total
}

/// Collects the elements seen during a borrowing walk into a second
/// vector; both hold the same sequence afterwards.
pub fn iterator_collect() -> (r: (Vec<i32>, Vec<i32>))
    ensures
        r.0@ == seq![1i32, 2i32, 3i32],
        r.1@ == r.0@,
{
    let mut v1: Vec<i32> = Vec::new();
    v1.push(1);
    v1.push(2);
    v1.push(3);

    let mut collected: Vec<i32> = Vec::new();
    let mut i: usize = 0;
    while i < v1.len()
        invariant
            v1@ == seq![1i32, 2i32, 3i32],
            0 <= i <= 3,
            collected@ == v1@.subrange(0, i as int),
        decreases v1.len() - i,
    {
        collected.push(v1[i]);
        assert(collected@ =~= v1@.subrange(0, i + 1 as int));
        i += 1;
    }
    assert(collected@ =~= v1@);
    (v1, collected)
}

/// Keeps exactly the strictly positive elements, in their original
/// order.
pub fn filter_positive(v: &Vec<i32>) -> (w: Vec<i32>)
    ensures
        w@ == v@.filter(|x: i32| x > 0),
{
    let mut w: Vec<i32> = Vec::new();
    let mut i: usize = 0;
    proof {
        reveal(Seq::filter);
        assert(v@.subrange(0, 0).filter(|x: i32| x > 0) =~= Seq::<i32>::empty());
    }
    while i < v.len()
        invariant
            0 <= i <= v@.len(),
            w@ == v@.subrange(0, i as int).filter(|x: i32| x > 0),
        decreases v@.len() - i,
    {
        let x: i32 = v[i];
        proof {
            let pred = |y: i32| y > 0;
            reveal(Seq::filter);
            let prefix = v@.subrange(0, i as int);
            let pushed = prefix.push(v@[i as int]);
            assert(v@.subrange(0, i + 1 as int) =~= pushed);
            assert(pushed.drop_last() =~= prefix);
            assert(pushed.last() == v@[i as int]);
            assert(pushed.filter(pred) == if pred(v@[i as int]) {
                prefix.filter(pred).push(v@[i as int])
            } else {
                prefix.filter(pred)
            });
        }
        if x > 0 {
            w.push(x);
            assert(w@ =~= v@.subrange(0, i + 1 as int).filter(|y: i32| y > 0));
        } else {
            assert(w@ =~= v@.subrange(0, i + 1 as int).filter(|y: i32| y > 0));
        }
        i += 1;
    }
    proof {
        assert(v@.subrange(0, v@.len() as int) =~= v@);
    }
    w
}

/// Maps each element through the identity, filters for positivity, and
/// collects; one, two and three all pass through.
pub fn iterator_map_filter() -> (r: Vec<i32>)
    ensures
        r@ == seq![1i32, 2i32, 3i32],
{
    let mut v: Vec<i32> = Vec::new();
    v.push(1);
    v.push(2);
    v.push(3);

    let collected: Vec<i32> = filter_positive(&v);
    proof {
        reveal_with_fuel(Seq::<_>::filter, 4);
        assert(collected@ =~= seq![1i32, 2i32, 3i32]);
    }
    collected
}

} // verus!
