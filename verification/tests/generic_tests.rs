use rust_wiki::closures;
use rust_wiki::generics::{self, Decrement, Outcome, Point};
use rust_wiki::iterators::{self, Fibonacci};
use rust_wiki::lifetimes::{self, Article, NamedBorrowed, Summary};

#[test]
fn generics_in_functions_finds_largest() {
    let list = [3i32, 7, 2];
    assert_eq!(*generics::generics_in_functions(&list), 7);
}

#[test]
fn generics_in_functions_first_of_equals() {
    let list = [5u8, 5, 1];
    assert_eq!(*generics::generics_in_functions(&list), 5);
}

#[test]
fn implsugar_returns_index_of_largest() {
    let list = [3i64, 7, 2];
    assert_eq!(generics::generics_in_functions_implsugar(&list), 1);
}

#[test]
fn wheresugar_finds_largest() {
    let list = ['a', 'z', 'm'];
    assert_eq!(*generics::generics_in_functions_wheresugar(&list), 'z');
}

#[test]
fn largest_coord_picks_greater() {
    let p = Point { x: 3i32, y: 9i32 };
    assert_eq!(p.largest_coord(), 9);
    let q = Point { x: 12i32, y: 9i32 };
    assert_eq!(q.largest_coord(), 12);
}

#[test]
fn using_generic_structs1_picks_larger_sum() {
    let p1 = Point { x: 1, y: 2 };
    let p2 = Point { x: 2, y: 2 };
    let r = generics::using_generic_structs1(p1, p2);
    assert_eq!((r.x, r.y), (2, 2));
}

#[test]
fn using_generic_structs1_first_wins_ties() {
    let p1 = Point { x: 2, y: 2 };
    let p2 = Point { x: 1, y: 3 };
    let r = generics::using_generic_structs1(p1, p2);
    assert_eq!((r.x, r.y), (2, 2));
}

#[test]
fn using_generic_structs2_picks_larger_sum() {
    let p1 = Point { x: 10i64, y: 1i64 };
    let p2 = Point { x: 3i64, y: 4i64 };
    let r = generics::using_generic_structs2(p1, p2);
    assert_eq!((r.x, r.y), (10, 1));
}

#[test]
fn from_ok_u32_unwraps_or_zero() {
    let ok: Outcome<u32, &str> = Outcome::Success(9);
    let err: Outcome<u32, &str> = Outcome::Failure("boom");
    assert_eq!(ok.from_ok_u32(), 9);
    assert_eq!(err.from_ok_u32(), 0);
}

#[test]
fn from_ok_unwraps_or_default() {
    let ok: Outcome<i32, u8> = Outcome::Success(-4);
    let err: Outcome<i32, u8> = Outcome::Failure(1);
    assert_eq!(ok.from_ok(0), -4);
    assert_eq!(err.from_ok(17), 17);
}

#[test]
fn parse_i32_reads_digits() {
    assert!(matches!(generics::parse_i32("10"), Outcome::Success(10)));
    assert!(matches!(generics::parse_i32("0"), Outcome::Success(0)));
    assert!(matches!(
        generics::parse_i32("2147483647"),
        Outcome::Success(2147483647)
    ));
}

#[test]
fn parse_i32_rejects_empty() {
    assert!(matches!(generics::parse_i32(""), Outcome::Failure(_)));
}

#[test]
fn parse_i32_rejects_stray_characters() {
    assert!(matches!(generics::parse_i32("12a"), Outcome::Failure(_)));
    assert!(matches!(generics::parse_i32("-3"), Outcome::Failure(_)));
}

#[test]
fn parse_i32_rejects_overflow() {
    assert!(matches!(
        generics::parse_i32("2147483648"),
        Outcome::Failure(_)
    ));
}

#[test]
fn using_generic_enums1_parses_ten() {
    assert!(matches!(
        generics::using_generic_enums1(),
        Outcome::Success(10)
    ));
}

#[test]
fn using_generic_enums2_adds_successes() {
    let a: Outcome<i64, u8> = Outcome::Success(4);
    let b: Outcome<i64, u8> = Outcome::Success(5);
    assert!(matches!(
        generics::using_generic_enums2(&a, &b),
        Outcome::Success(9)
    ));
}

#[test]
fn using_generic_enums2_keeps_first_failure() {
    let a: Outcome<i64, u8> = Outcome::Failure(3);
    let b: Outcome<i64, u8> = Outcome::Success(5);
    assert!(matches!(
        generics::using_generic_enums2(&a, &b),
        Outcome::Failure(3)
    ));
    let c: Outcome<i64, u8> = Outcome::Success(1);
    let d: Outcome<i64, u8> = Outcome::Failure(9);
    assert!(matches!(
        generics::using_generic_enums2(&c, &d),
        Outcome::Failure(9)
    ));
}

#[test]
fn decrement_for_i32() {
    assert_eq!(5i32.decrement(), 4);
}

#[test]
fn decrement_for_point_as_i32() {
    let p = Point { x: 5i32, y: 2u8 };
    let d: i32 = p.decrement();
    assert_eq!(d, 4);
}

#[test]
fn decrement_for_point_as_point() {
    let p = Point { x: 5i32, y: 2u8 };
    let d: Point<i32, u8> = p.decrement();
    assert_eq!((d.x, d.y), (4, 2));
}

#[test]
fn lifetimes_in_functions_increments_and_returns_first() {
    let x = 1;
    let mut y = 41;
    let r = lifetimes::lifetimes_in_functions(&x, &mut y);
    assert_eq!(*r, 1);
    assert_eq!(y, 42);
}

#[test]
fn main1_values() {
    assert_eq!(lifetimes::main1(), (7, 10));
}

#[test]
fn named_borrowed_add_one() {
    let x = 2;
    let mut nb = NamedBorrowed::makeStruct(&x, 10);
    nb.add_one();
    assert_eq!(*nb.x, 2);
    assert_eq!(nb.y, 11);
}

#[test]
fn main2_values() {
    assert_eq!(lifetimes::main2(), (18, 16));
}

#[test]
fn article_summarizes_as_title() {
    let a = Article { title: "t", content: "c" };
    assert_eq!(a.summarize(), "t");
}

#[test]
fn main3_value() {
    assert_eq!(lifetimes::main3(), "hello");
}

#[test]
fn closures_vs_fns_adds_captured_one() {
    assert_eq!(closures::closures_vs_fns(), 2);
}

#[test]
fn one_fn_and_add_one_fundef() {
    assert_eq!(closures::one_fn(), 1);
    assert_eq!(closures::add_one_fundef(41), 42);
}

#[test]
fn closure_move_in_values() {
    assert_eq!(closures::closure_move_in(), (3, 2));
}

#[test]
fn closure_immutborrow_in_values() {
    let (n, xs) = closures::closure_immutborrow_in();
    assert_eq!(n, 3);
    assert_eq!(xs, vec![1, 2, 3]);
}

#[test]
fn closure_move_out_values() {
    let (xs, x) = closures::closure_move_out();
    assert_eq!(xs, vec![1, 2, 3]);
    assert_eq!(x, 2);
}

#[test]
fn fibonacci_first_values() {
    let mut f = Fibonacci::new();
    let mut seen = Vec::new();
    for _ in 0..7 {
        seen.push(f.next().unwrap());
    }
    assert_eq!(seen, vec![0, 1, 1, 2, 3, 5, 8]);
}

#[test]
fn borrowing_iterator_values() {
    let (v, total) = iterators::borrowing_iterator();
    assert_eq!(v, vec![1, 2, 3]);
    assert_eq!(total, 6);
}

#[test]
fn mutably_borrowing_iterator_values() {
    assert_eq!(iterators::mutably_borrowing_iterator(), vec![2, 3, 4]);
}

#[test]
fn owning_iterator_values() {
    assert_eq!(iterators::owning_iterator(), vec![2, 3, 4]);
}

#[test]
fn iterator_sum_value() {
    assert_eq!(iterators::iterator_sum(), 6);
}

#[test]
fn iterator_collect_values() {
    let (v, w) = iterators::iterator_collect();
    assert_eq!(v, vec![1, 2, 3]);
    assert_eq!(w, v);
}

#[test]
fn filter_positive_drops_nonpositive() {
    assert_eq!(
        iterators::filter_positive(&vec![-1, 0, 2, 5]),
        vec![2, 5]
    );
}

#[test]
fn iterator_map_filter_values() {
    assert_eq!(iterators::iterator_map_filter(), vec![1, 2, 3]);
}
