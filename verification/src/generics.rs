//! Generics: functions, structs, enums and traits over abstract types.
//!
//! A bound like `PartialOrd` only names the operations; what they mean
//! comes from their specification. Contracts below therefore speak
//! through `partial_cmp_spec` and `add_spec`, guarded by the flags that
//! say the type's operators obey those specs, and - where an argument
//! is only guaranteed transitive ordering - through the order laws.

use core::cmp::Ordering;
use vstd::laws_cmp::obeys_partial_cmp_spec_properties;
use vstd::prelude::*;
use vstd::std_specs::cmp::PartialOrdSpec;
use vstd::std_specs::ops::AddSpec;

verus! {

/// No element of the list compares strictly greater than `r`.
pub open spec fn no_element_greater<T: PartialOrd>(list: Seq<T>, r: T) -> bool {
    forall|k: int|
        0 <= k < list.len() ==> #[trigger] list[k].partial_cmp_spec(&r) != Some(Ordering::Greater)
}

/// The element type's comparisons follow their spec and order
/// transitively. The sequence argument only names the type, so this
/// can be said even of a type the `impl Trait` sugar left anonymous.
pub open spec fn cmp_laws_hold<T: PartialOrd>(list: Seq<T>) -> bool {
    T::obeys_partial_cmp_spec() && obeys_partial_cmp_spec_properties::<T>()
}

/// The scan itself: the index of an element no other element compares
/// strictly greater than.
fn largest_index<T: PartialOrd>(list: &[T]) -> (k: usize)
    requires
        list@.len() > 0,
    ensures
        k < list@.len(),
        cmp_laws_hold(list@) ==> no_element_greater(list@, list@[k as int]),
{
    let mut li: usize = 0;
    let mut i: usize = 1;
    proof {
        if cmp_laws_hold(list@) {
            reveal(obeys_partial_cmp_spec_properties);
            assert forall|k: int|
                0 <= k < 1 implies #[trigger] list@.subrange(0, 1)[k].partial_cmp_spec(&list@[0])
                != Some(Ordering::Greater) by {
                assert(list@.subrange(0, 1)[k] == list@[0]);
                if list@[0].partial_cmp_spec(&list@[0]) == Some(Ordering::Greater) {
                    assert(list@[0].partial_cmp_spec(&list@[0]) == Some(Ordering::Less));
                }
            }
        }
    }
    while i < list.len()
        invariant
            1 <= i <= list@.len(),
            0 <= li < i,
            cmp_laws_hold(list@) ==> no_element_greater(
                list@.subrange(0, i as int),
                list@[li as int],
            ),
        decreases list@.len() - i,
    {
        let item: &T = &list[i];
        if item.gt(&list[li]) {
            proof {
                if cmp_laws_hold(list@) {
                    reveal(obeys_partial_cmp_spec_properties);
                    assert forall|k: int|
                        0 <= k < i + 1 implies #[trigger] list@.subrange(0, i + 1 as int)[k].partial_cmp_spec(
                        &list@[i as int],
                    ) != Some(Ordering::Greater) by {
                        assert(list@.subrange(0, i + 1 as int)[k] == list@[k]);
                        if k < i && list@[k].partial_cmp_spec(&list@[i as int]) == Some(
                            Ordering::Greater,
                        ) {
                            assert(list@[i as int].partial_cmp_spec(&list@[li as int]) == Some(
                                Ordering::Greater,
                            ));
                            assert(list@[k].partial_cmp_spec(&list@[li as int]) == Some(
                                Ordering::Greater,
                            ));
                            assert(list@.subrange(0, i as int)[k] == list@[k]);
                        }
                    }
                }
            }
            li = i;
        } else {
            proof {
                if cmp_laws_hold(list@) {
                    assert forall|k: int|
                        0 <= k < i + 1 implies #[trigger] list@.subrange(0, i + 1 as int)[k].partial_cmp_spec(
                        &list@[li as int],
                    ) != Some(Ordering::Greater) by {
                        assert(list@.subrange(0, i + 1 as int)[k] == list@[k]);
                        if k < i {
                            assert(list@.subrange(0, i as int)[k] == list@[k]);
                        }
                    }
                }
            }
        }
        i += 1;
    }
    proof {
        assert(list@.subrange(0, list@.len() as int) =~= list@);
    }
    li
}

/// Scans for the largest element. The result is always an element of
/// the list; when the type's comparisons obey the order laws, no
/// element is strictly greater than it.
pub fn generics_in_functions<T: PartialOrd>(list: &[T]) -> (r: &T)
    requires
        list@.len() > 0,
    ensures
        exists|k: int| 0 <= k < list@.len() && *r == list@[k],
        cmp_laws_hold(list@) ==> no_element_greater(list@, *r),
{
    let k: usize = largest_index(list);
    &list[k]
}

/// The same scan, spelled with `impl Trait`. That sugar leaves the
/// element type anonymous, so the result is handed out as an index,
/// which the contract can still pin down.
pub fn generics_in_functions_implsugar(list: &[impl PartialOrd]) -> (k: usize)
    requires
        list@.len() > 0,
    ensures
        k < list@.len(),
        cmp_laws_hold(list@) ==> no_element_greater(list@, list@[k as int]),
{
    largest_index(list)
}

/// The same scan, with the bound moved to a `where` clause.
pub fn generics_in_functions_wheresugar<T>(list: &[T]) -> (r: &T) where T: PartialOrd
    requires
        list@.len() > 0,
    ensures
        exists|k: int| 0 <= k < list@.len() && *r == list@[k],
        cmp_laws_hold(list@) ==> no_element_greater(list@, *r),
{
    generics_in_functions(list)
}

/// A point whose two coordinates may have different types.
pub struct Point<T, U> {
    pub x: T,
    pub y: U,
}

impl<T: PartialOrd> Point<T, T> {
    /// The larger coordinate; consumes the point. When comparisons
    /// obey their spec, it is `x` exactly when `x` compares greater.
    pub fn largest_coord(self) -> (r: T)
        ensures
            r == self.x || r == self.y,
            T::obeys_partial_cmp_spec() ==> r == (if self.x.partial_cmp_spec(&self.y) == Some(
                Ordering::Greater,
            ) {
                self.x
            } else {
                self.y
            }),
    {
        if self.x.gt(&self.y) {
            self.x
        } else {
            self.y
        }
    }
}

/// Of two concrete integer points, the one whose coordinate sum is at
/// least the other's; the first wins ties.
pub fn using_generic_structs1(p1: Point<i32, i32>, p2: Point<i32, i32>) -> (r: Point<i32, i32>)
    requires
        i32::MIN <= p1.x + p1.y <= i32::MAX,
        i32::MIN <= p2.x + p2.y <= i32::MAX,
    ensures
        r == (if p1.x + p1.y >= p2.x + p2.y {
            p1
        } else {
            p2
        }),
{
    let sum1: i32 = p1.x + p1.y;
    let sum2: i32 = p2.x + p2.y;
    if sum1 >= sum2 {
        p1
    } else {
        p2
    }
}

/// The same choice over any copyable type whose addition and ordering
/// are specified; the requires is exactly addition's own precondition.
pub fn using_generic_structs2<T: PartialOrd + core::ops::Add<Output = T> + Copy>(
    p1: Point<T, T>,
    p2: Point<T, T>,
) -> (r: Point<T, T>)
    requires
        p1.x.add_req(p1.y),
        p2.x.add_req(p2.y),
    ensures
        r == p1 || r == p2,
        (T::obeys_add_spec() && T::obeys_partial_cmp_spec()) ==> r == (
        if p1.x.add_spec(p1.y).partial_cmp_spec(&p2.x.add_spec(p2.y)) matches Some(
            Ordering::Greater
            | Ordering::Equal,
        ) {
            p1
        } else {
            p2
        }),
{
    let sum1: T = p1.x.add(p1.y);
    let sum2: T = p2.x.add(p2.y);
    if sum1.ge(&sum2) {
        p1
    } else {
        p2
    }
}

/// A computation that either produced a value or failed with an error.
pub enum Outcome<T, E> {
    Success(T),
    Failure(E),
}

impl<E> Outcome<u32, E> {
    /// The value, with zero standing in for any error.
    pub fn from_ok_u32(self) -> (r: u32)
        ensures
            r == (match self {
                Outcome::Success(v) => v,
                Outcome::Failure(_) => 0u32,
            }),
    {
        match self {
            Outcome::Success(res) => res,
            Outcome::Failure(_) => 0,
        }
    }
}

impl<T, E> Outcome<T, E> {
    /// The value, with the given default standing in for any error.
    pub fn from_ok(self, default: T) -> (r: T)
        ensures
            r == (match self {
                Outcome::Success(v) => v,
                Outcome::Failure(_) => default,
            }),
    {
        match self {
            Outcome::Success(res) => res,
            Outcome::Failure(_) => default,
        }
    }
}

/// The error a failed integer parse reports.
pub struct ParseIntError;

/// A decimal digit, as a character.
pub open spec fn is_dec_digit(c: char) -> bool {
    48 <= c as int <= 57
}

/// The numeric value of a digit character.
pub open spec fn digit_val(c: char) -> int {
    c as int - 48
}

/// Every character of the sequence is a decimal digit.
pub open spec fn all_dec_digits(s: Seq<char>) -> bool {
    forall|i: int| 0 <= i < s.len() ==> is_dec_digit(#[trigger] s[i])
}

/// The number a sequence of digit characters denotes, most significant
/// digit first.
pub open spec fn dec_value(s: Seq<char>) -> int
    decreases s.len(),
{
    if s.len() == 0 {
        0
    } else {
        dec_value(s.drop_last()) * 10 + digit_val(s.last())
    }
}

/// A digit string denotes a number that is not negative.
proof fn lemma_dec_value_nonneg(s: Seq<char>)
    requires
        all_dec_digits(s),
    ensures
        dec_value(s) >= 0,
    decreases s.len(),
{
    if s.len() > 0 {
        assert(all_dec_digits(s.drop_last())) by {
            assert(forall|i: int|
                0 <= i < s.len() - 1 ==> #[trigger] s.drop_last()[i] == s[i]);
        }
        lemma_dec_value_nonneg(s.drop_last());
    }
}

/// Extending a digit string can only keep or grow the denoted number.
proof fn lemma_dec_value_prefix(s: Seq<char>, i: int)
    requires
        0 <= i <= s.len(),
        all_dec_digits(s),
    ensures
        dec_value(s.subrange(0, i)) <= dec_value(s),
    decreases s.len() - i,
{
    if i == s.len() {
        assert(s.subrange(0, i) =~= s);
    } else {
        let p = s.subrange(0, i);
        let q = s.subrange(0, i + 1);
        assert(q.drop_last() =~= p);
        assert(q.last() == s[i]);
        assert(all_dec_digits(p)) by {
            assert(forall|j: int| 0 <= j < i ==> #[trigger] p[j] == s[j]);
        }
        lemma_dec_value_nonneg(p);
        assert(dec_value(q) == dec_value(p) * 10 + digit_val(s[i]));
        lemma_dec_value_prefix(s, i + 1);
    }
}

/// Parses a string of decimal digits. Succeeds exactly on a nonempty
/// all-digit string whose value fits, and then returns that value;
/// anything else - empty input, a stray character, overflow - fails.
pub fn parse_i32(s: &str) -> (r: Outcome<i32, ParseIntError>)
    ensures
        (s@.len() > 0 && all_dec_digits(s@) && dec_value(s@) <= i32::MAX) ==> r
            == Outcome::<i32, ParseIntError>::Success(dec_value(s@) as i32),
        !(s@.len() > 0 && all_dec_digits(s@) && dec_value(s@) <= i32::MAX) ==> r is Failure,
{
    let n: usize = s.unicode_len();
    if n == 0 {
        return Outcome::Failure(ParseIntError);
    }
    let mut acc: i32 = 0;
    let mut i: usize = 0;
    while i < n
        invariant
            n == s@.len(),
            0 <= i <= n,
            forall|j: int| 0 <= j < i ==> is_dec_digit(#[trigger] s@[j]),
            0 <= acc,
            acc == dec_value(s@.subrange(0, i as int)),
        decreases n - i,
    {
        let c: char = s.get_char(i);
        let code: u32 = c as u32;
        if code < 48 || code > 57 {
            assert(!is_dec_digit(s@[i as int]));
            return Outcome::Failure(ParseIntError);
        }
        let d: i32 = (code - 48) as i32;
        proof {
            let p = s@.subrange(0, i as int);
            let q = s@.subrange(0, i + 1 as int);
            assert(q.drop_last() =~= p);
            assert(q.last() == s@[i as int]);
            assert(dec_value(q) == acc * 10 + d);
        }
        if acc > (i32::MAX - d) / 10 {
            proof {
                assert(acc * 10 + d > i32::MAX) by (nonlinear_arith)
                    requires
                        acc > (i32::MAX - d) / 10,
                        0 <= d <= 9,
                        acc >= 0,
                ;
                if all_dec_digits(s@) {
                    lemma_dec_value_prefix(s@, i + 1);
                }
            }
            return Outcome::Failure(ParseIntError);
        }
        proof {
            assert(acc * 10 + d <= i32::MAX) by (nonlinear_arith)
                requires
                    acc <= (i32::MAX - d) / 10,
                    0 <= d <= 9,
                    acc >= 0,
            ;
        }
        acc = acc * 10 + d;
        i += 1;
    }
    proof {
        assert(s@.subrange(0, n as int) =~= s@);
    }
    Outcome::Success(acc)
}

/// Parsing the literal "10" succeeds with the value ten; a parse error
/// would have been passed along as the failure case.
pub fn using_generic_enums1() -> (r: Outcome<i32, ParseIntError>)
    ensures
        r == Outcome::<i32, ParseIntError>::Success(10),
{
    let number_str: &str = "10";
    proof {
        reveal_strlit("10");
        let s = "10"@;
        assert(s.drop_last() =~= seq!['1']);
        assert(seq!['1'].drop_last() =~= Seq::<char>::empty());
        assert(dec_value(Seq::<char>::empty()) == 0);
        assert(dec_value(seq!['1']) == digit_val('1'));
        assert(dec_value(s) == 10);
        assert(all_dec_digits(s)) by {
            assert(s[0] == '1' && s[1] == '0');
        }
    }
    let number: i32 = match parse_i32(number_str) {
        Outcome::Success(number) => number,
        Outcome::Failure(e) => {
            return Outcome::Failure(e);
        },
    };
    Outcome::Success(number)
}

/// Adds the payloads of two successful outcomes, cloning out of the
/// shared references; the first failure encountered is cloned and
/// returned instead.
pub fn using_generic_enums2<T: core::ops::Add<Output = T> + Clone, E: Clone>(
    res1: &Outcome<T, E>,
    res2: &Outcome<T, E>,
) -> (r: Outcome<T, E>)
    requires
        (res1 is Success && res2 is Success) ==> forall|x1: T, x2: T|
            cloned(res1->Success_0, x1) && cloned(res2->Success_0, x2)
                ==> #[trigger] x1.add_req(x2),
    ensures
        r is Success <==> (res1 is Success && res2 is Success),
        (T::obeys_add_spec() && res1 is Success && res2 is Success) ==> exists|x1: T, x2: T|
            cloned(res1->Success_0, x1) && cloned(res2->Success_0, x2) && r->Success_0
                == #[trigger] x1.add_spec(x2),
        res1 is Failure ==> cloned(res1->Failure_0, r->Failure_0),
        (res1 is Success && res2 is Failure) ==> cloned(res2->Failure_0, r->Failure_0),
{
    match (res1, res2) {
        (Outcome::Success(x1ref), Outcome::Success(x2ref)) => {
            let x1: T = x1ref.clone();
            let x2: T = x2ref.clone();
            Outcome::Success(x1.add(x2))
        },
        (Outcome::Failure(e), _) => Outcome::Failure(e.clone()),
        (_, Outcome::Failure(e)) => Outcome::Failure(e.clone()),
    }
}

/// Stepping a value down into a chosen result type; generic traits let
/// one `Self` serve several result types.
pub trait Decrement<T> {
    /// When stepping down is allowed.
    spec fn decrement_req(&self) -> bool;

    /// The stepped-down value.
    spec fn decrement_spec(&self) -> T;

    /// Steps the value down by one.
    fn decrement(&self) -> (r: T)
        requires
            self.decrement_req(),
        ensures
            r == self.decrement_spec(),
    ;
}

impl Decrement<i32> for i32 {
    open spec fn decrement_req(&self) -> bool {
        *self > i32::MIN
    }

    open spec fn decrement_spec(&self) -> i32 {
        (*self - 1) as i32
    }

    fn decrement(&self) -> (r: i32) {
        *self - 1
    }
}

impl<T> Decrement<i32> for Point<i32, T> {
    open spec fn decrement_req(&self) -> bool {
        self.x > i32::MIN
    }

    open spec fn decrement_spec(&self) -> i32 {
        (self.x - 1) as i32
    }

    fn decrement(&self) -> (r: i32) {
        self.x - 1
    }
}

impl<T: Copy> Decrement<Point<i32, T>> for Point<i32, T> {
    open spec fn decrement_req(&self) -> bool {
        self.x > i32::MIN
    }

    open spec fn decrement_spec(&self) -> Point<i32, T> {
        Point { x: (self.x - 1) as i32, y: self.y }
    }

    fn decrement(&self) -> (r: Point<i32, T>) {
        Point { x: self.x - 1, y: self.y }
    }
}

} // verus!
