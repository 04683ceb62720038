//! Slices: borrowed views into arrays, vectors and strings.
//!
//! A slice reference carries a pointer and a length, so its contract can
//! speak of exactly the elements it exposes: a subrange of the sequence
//! the owner holds.

use vstd::prelude::*;

verus! {

/// Borrows an array wholly and partially; the part holds the middle
/// three elements.
pub fn arrslice_example() -> (r: (usize, usize, i32))
    ensures
        r.0 == 5,
        r.1 == 3,
        r.2 == 2,
{
    let arr: [i32; 5] = [1, 2, 3, 4, 5];

    let arr_ref: &[i32; 5] = &arr;

    let arr_whole: &[i32] = arr.as_slice();

    let arr_sliceref: &[i32] = &arr_whole[1..4];

    (arr_whole.len(), arr_sliceref.len(), arr_sliceref[0])
}

/// Borrows a vector wholly and partially; the slices see the vector's
/// own elements.
pub fn vecslice_example() -> (r: (usize, usize, i32))
    ensures
        r.0 == 5,
        r.1 == 3,
        r.2 == 2,
{
    let mut vec: Vec<i32> = Vec::new();
    vec.push(1);
    vec.push(2);
    vec.push(3);
    vec.push(4);
    vec.push(5);

    let vec_ref: &Vec<i32> = &vec;

    let vec_sliceref: &[i32] = &vec[1..4];

    let vec_wholesliceref: &[i32] = vec.as_slice();

    (vec_wholesliceref.len(), vec_sliceref.len(), vec_sliceref[0])
}

/// String slices: a literal, a `String` built from it, and a two
/// character prefix cut from each; both prefixes read "he".
pub fn strslice_example() -> (r: (String, usize, usize))
    ensures
        r.0@ == "hello"@,
        r.1 == 2,
        r.2 == 2,
{
    let s1: &str = "hello";
    proof {
        reveal_strlit("hello");
    }
    let s2: String = String::from_str("hello");

    let slice_s1: &str = s1.substring_ascii(0, 2);
    let slice_s2: &str = s2.as_str().substring_ascii(0, 2);
    proof {
        reveal_strlit("he");
    }
    assert(slice_s1@ =~= "he"@);
    assert(slice_s2@ =~= "he"@);

    let s: String = String::from_str(s1);
    (s, slice_s1.unicode_len(), slice_s2.unicode_len())
}

/// A literal is a borrowed slice of five characters; a `String` built
/// from it holds the same five.
pub fn string_slices() -> (r: (usize, String))
    ensures
        r.0 == 5,
        r.1@ == "hello"@,
{
    let s: &str = "hello";
    proof {
        reveal_strlit("hello");
    }
    let len: usize = s.unicode_len();
    let s_mutable: String = String::from_str(s);
    (len, s_mutable)
}

/// A literal's length, and the `String` that copies its characters to
/// the heap.
pub fn string_literals() -> (r: (usize, String))
    ensures
        r.0 == 5,
        r.1@ == "hello"@,
{
    let s: &str = "hello";
    proof {
        reveal_strlit("hello");
    }
    let len: usize = s.unicode_len();
    let owned: String = String::from_str(s);
    (len, owned)
}

/// Reads a slice: its first element and its length.
pub fn analyze_slice(slice: &[i32]) -> (r: (i32, usize))
    requires
        slice@.len() > 0,
    ensures
        r.0 == slice@[0],
        r.1 == slice@.len(),
{
    (slice[0], slice.len())
}

/// Slices of an array: the whole of it, then a part of it.
pub fn i32_slices() -> (r: ((i32, usize), (i32, usize)))
    ensures
        r.0 == (1i32, 5usize),
        r.1 == (2i32, 2usize),
{
    let xs: [i32; 5] = [1, 2, 3, 4, 5];

    let whole: (i32, usize) = analyze_slice(xs.as_slice());
    let part: (i32, usize) = analyze_slice(&xs.as_slice()[1..3]);
    (whole, part)
}

/// Writes through two mutable slice borrows of the same vector, one
/// after the other; each write lands at its index.
pub fn mutable_slices() -> (r: Vec<i32>)
    ensures
        r@ == seq![10i32, 2i32, 3i32, 4i32, 50i32],
{
    let mut xs: Vec<i32> = Vec::new();
    xs.push(1);
    xs.push(2);
    xs.push(3);
    xs.push(4);
    xs.push(5);

    let r1: &mut [i32] = xs.as_mut_slice();
    r1[0] = 10;

    let r2: &mut [i32] = xs.as_mut_slice();
    r2[4] = 50;

    assert(xs@ =~= seq![10i32, 2i32, 3i32, 4i32, 50i32]);
    xs
}

/// The first word of a string: the longest prefix holding no space.
/// If a space occurs, the word stops right before the first one.
pub fn get_first_word(s: &str) -> (w: &str)
    ensures
        w@.len() <= s@.len(),
        w@ == s@.subrange(0, w@.len() as int),
        forall|j: int| 0 <= j < w@.len() ==> s@[j] != ' ',
        w@.len() < s@.len() ==> s@[w@.len() as int] == ' ',
{
    let n: usize = s.unicode_len();
    let mut i: usize = 0;
    while i < n
        invariant
            n == s@.len(),
            0 <= i <= n,
            forall|j: int| 0 <= j < i ==> s@[j] != ' ',
        decreases n - i,
    {
        if s.get_char(i) == ' ' {
            return s.substring_char(0, i);
        }
        i += 1;
    }
    s.substring_char(0, n)
}

} // verus!
