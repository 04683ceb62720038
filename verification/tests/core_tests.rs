use rust_wiki::basics;
use rust_wiki::ownership;
use rust_wiki::references;
use rust_wiki::slices;

#[test]
fn immutable_variables_returns_shadowed_value() {
    assert_eq!(basics::immutable_variables(), 6);
}

#[test]
fn mutable_variables_returns_reassigned_value() {
    assert_eq!(basics::mutable_variables(), 6);
}

#[test]
fn three_hours_in_seconds() {
    assert_eq!(basics::THREE_HOURS_IN_SECONDS, 10800);
}

#[test]
fn add_one_branches() {
    assert_eq!(basics::add_one(5), 6);
    assert_eq!(basics::add_one(0), 2);
    assert_eq!(basics::add_one(-3), -1);
}

#[test]
fn functions_block_expression() {
    assert_eq!(basics::functions(), 4);
}

#[test]
fn data_types_values() {
    assert_eq!(basics::data_types(), (1, 3, 3, 14));
}

#[test]
fn element_at_in_bounds() {
    let arr = [10, 20, 30, 40, 50];
    assert_eq!(basics::element_at(&arr, 2), Some(30));
}

#[test]
fn element_at_out_of_bounds() {
    let arr = [10, 20, 30, 40, 50];
    assert_eq!(basics::element_at(&arr, 5), None);
}

#[test]
fn control_flow_counts() {
    assert_eq!(basics::control_flow(), (true, 3, 0));
}

#[test]
fn owner_example_values() {
    assert_eq!(ownership::owner_example(), (43, 4));
}

#[test]
fn ownership_scope_example_values() {
    assert_eq!(ownership::ownership_scope_example(), (5, 5));
}

#[test]
fn move_data_keeps_value() {
    assert_eq!(ownership::move_data(), "hello");
}

#[test]
fn copy_data_keeps_both() {
    assert_eq!(ownership::copy_data(), (5, 5));
}

#[test]
fn clone_data_equal_copies() {
    let (a, b) = ownership::clone_data();
    assert_eq!(a, "hello");
    assert_eq!(a, b);
}

#[test]
fn add_ones_pushes_four() {
    assert_eq!(ownership::add_ones(vec![1, 2, 3]), vec![1, 2, 3, 4]);
}

#[test]
fn takes_ownership_counts_chars() {
    assert_eq!(ownership::takes_ownership(String::from("hello")), 5);
}

#[test]
fn makes_copy_is_identity() {
    assert_eq!(ownership::makes_copy(7), 7);
}

#[test]
fn ownership_in_function_calls_keeps_copied_value() {
    assert_eq!(ownership::ownership_in_function_calls(), 5);
}

#[test]
fn gives_ownership_yields_yours() {
    assert_eq!(ownership::gives_ownership(), "yours");
}

#[test]
fn takes_and_gives_back_is_identity() {
    assert_eq!(
        ownership::takes_and_gives_back(String::from("anything")),
        "anything"
    );
}

#[test]
fn ownership_in_function_returns_values() {
    let (s1, s3) = ownership::ownership_in_function_returns();
    assert_eq!(s1, "yours");
    assert_eq!(s3, "hello");
}

#[test]
fn variable_scope_lengths() {
    assert_eq!(ownership::variable_scope(), (5, 5));
}

#[test]
fn move_dynamic_data_keeps_value() {
    assert_eq!(ownership::move_dynamic_data(), "hello");
}

#[test]
fn clone_dynamic_data_equal_copies() {
    let (a, b) = ownership::clone_dynamic_data();
    assert_eq!(a, "hello");
    assert_eq!(a, b);
}

#[test]
fn copy_static_data_keeps_both() {
    assert_eq!(ownership::copy_static_data(), (5, 5));
}

#[test]
fn refs_vs_owners_moves_owners_out() {
    let (ib, s) = references::refs_vs_owners();
    assert_eq!(ib.0, 42);
    assert_eq!(s, "golly");
}

#[test]
fn refs_lifetime_example_returns_argument() {
    let v = 9;
    assert_eq!(*references::refs_lifetime_example(&v), 9);
}

#[test]
fn refs_lifetime_desugar_values() {
    assert_eq!(references::refs_lifetime_desugar(), (0, 0));
}

#[test]
fn refs_lifetime_elaborated_values() {
    assert_eq!(references::refs_lifetime_elaborated(), (42, 0));
}

#[test]
fn reference_deferencing_example_values() {
    assert_eq!(references::reference_deferencing_example(), (10, 10));
}

#[test]
fn shared_reference_example_length() {
    assert_eq!(references::shared_reference_example(), 5);
}

#[test]
fn push_suffix_appends() {
    let mut s = String::from("ab");
    references::push_suffix(&mut s, "cd");
    assert_eq!(s, "abcd");
}

#[test]
fn mut_reference_example_appends_twice() {
    assert_eq!(references::mut_reference_example(), "helloss");
}

#[test]
fn set_value_writes_through() {
    let mut x = 1;
    references::set_value(&mut x, 41);
    assert_eq!(x, 41);
}

#[test]
fn mutable_variables_and_references_values() {
    assert_eq!(references::mutable_variables_and_references(), (2, 5, 5));
}

#[test]
fn refs_example_1_returns_argument() {
    let v = 3;
    assert_eq!(*references::refs_example_1(&v), 3);
}

#[test]
fn ref_example_2_returns_argument() {
    let b = Box::new(11);
    assert_eq!(**references::ref_example_2(&b), 11);
}

#[test]
fn calculate_length_counts_chars() {
    assert_eq!(references::calculate_length(&String::from("hello")), 5);
}

#[test]
fn immutable_ref_leaves_owner_valid() {
    let (s, len) = references::immutable_ref();
    assert_eq!(s, "hello");
    assert_eq!(len, 5);
}

#[test]
fn reference_example_1_values() {
    assert_eq!(references::reference_example_1(), (10, 10));
}

#[test]
fn reference_example_2_length() {
    assert_eq!(references::reference_example_2(), 5);
}

#[test]
fn reference_lifetime_and_deferencing_example_values() {
    assert_eq!(
        references::reference_lifetime_and_deferencing_example(),
        (10, 10)
    );
}

#[test]
fn double_doubles() {
    assert_eq!(references::_double(&48), 96);
    assert_eq!(references::_double(&-5), -10);
}

#[test]
fn main_example_doubles_48() {
    assert_eq!(references::_main(), 96);
}

#[test]
fn arrslice_example_values() {
    assert_eq!(slices::arrslice_example(), (5, 3, 2));
}

#[test]
fn vecslice_example_values() {
    assert_eq!(slices::vecslice_example(), (5, 3, 2));
}

#[test]
fn strslice_example_values() {
    let (s, l1, l2) = slices::strslice_example();
    assert_eq!(s, "hello");
    assert_eq!(l1, 2);
    assert_eq!(l2, 2);
}

#[test]
fn string_slices_values() {
    let (len, s) = slices::string_slices();
    assert_eq!(len, 5);
    assert_eq!(s, "hello");
}

#[test]
fn string_literals_values() {
    let (len, s) = slices::string_literals();
    assert_eq!(len, 5);
    assert_eq!(s, "hello");
}

#[test]
fn analyze_slice_reads_first_and_len() {
    assert_eq!(slices::analyze_slice(&[7, 8]), (7, 2));
}

#[test]
fn i32_slices_values() {
    assert_eq!(slices::i32_slices(), ((1, 5), (2, 2)));
}

#[test]
fn mutable_slices_writes_both_ends() {
    assert_eq!(slices::mutable_slices(), vec![10, 2, 3, 4, 50]);
}

#[test]
fn get_first_word_stops_at_space() {
    assert_eq!(slices::get_first_word("hello world"), "hello");
}

#[test]
fn get_first_word_whole_string_without_space() {
    assert_eq!(slices::get_first_word("hello"), "hello");
}

#[test]
fn get_first_word_empty_before_leading_space() {
    assert_eq!(slices::get_first_word(" lead"), "");
}

#[test]
fn get_first_word_empty_string() {
    assert_eq!(slices::get_first_word(""), "");
}
