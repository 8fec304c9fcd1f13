use jack_make::text::{
    convert_to_bumpy_case, i64_to_string, index_to_string, join7, order_texts, remove_char,
    replace_char, to_ascii_upper, u64_to_string,
};

#[test]
fn decimal_of_single_digits() {
    assert_eq!(index_to_string(0), "0");
    assert_eq!(index_to_string(7), "7");
    assert_eq!(index_to_string(9), "9");
}

#[test]
fn decimal_of_longer_numbers() {
    assert_eq!(index_to_string(10), "10");
    assert_eq!(index_to_string(109), "109");
    assert_eq!(u64_to_string(1234567890), "1234567890");
    assert_eq!(u64_to_string(u64::MAX), "18446744073709551615");
}

#[test]
fn decimal_of_signed_numbers() {
    assert_eq!(i64_to_string(0), "0");
    assert_eq!(i64_to_string(-1), "-1");
    assert_eq!(i64_to_string(-2), "-2");
    assert_eq!(i64_to_string(4294967296), "4294967296");
    assert_eq!(i64_to_string(i64::MIN), "-9223372036854775808");
    assert_eq!(i64_to_string(i64::MAX), "9223372036854775807");
}

#[test]
fn join_keeps_the_order_of_its_parts() {
    assert_eq!(join7("a", "b", "c", "d", "e", "f", "g"), "abcdefg");
    assert_eq!(join7("", "x", "", "y", "", "z", ""), "xyz");
}

#[test]
fn bumpy_case_drops_spaces_and_raises_what_follows() {
    assert_eq!(convert_to_bumpy_case("fly to base"), "flyToBase");
    assert_eq!(convert_to_bumpy_case("Fly To Base"), "FlyToBase");
    assert_eq!(convert_to_bumpy_case(""), "");
    assert_eq!(convert_to_bumpy_case("  a"), "A");
    assert_eq!(convert_to_bumpy_case("a  b "), "aB");
    assert_eq!(convert_to_bumpy_case("x 1 y"), "x1Y");
}

#[test]
fn bumpy_case_leaves_other_alphabets_alone() {
    assert_eq!(convert_to_bumpy_case("a é"), "aé");
    assert_eq!(convert_to_bumpy_case("größe x"), "größeX");
}

#[test]
fn ascii_upper_maps_only_small_ascii_letters() {
    assert_eq!(to_ascii_upper('a'), 'A');
    assert_eq!(to_ascii_upper('z'), 'Z');
    assert_eq!(to_ascii_upper('A'), 'A');
    assert_eq!(to_ascii_upper('1'), '1');
    assert_eq!(to_ascii_upper('é'), 'é');
}

#[test]
fn replace_and_remove_characters() {
    assert_eq!(replace_char("my own project", ' ', '_'), "my_own_project");
    assert_eq!(replace_char("", ' ', '_'), "");
    assert_eq!(remove_char("ab-cd-ef", '-'), "abcdef");
    assert_eq!(remove_char("---", '-'), "");
}

#[test]
fn texts_are_ordered_as_in_a_dictionary() {
    assert_eq!(order_texts("", ""), 0);
    assert_eq!(order_texts("a", "a"), 0);
    assert_eq!(order_texts("a", "b"), -1);
    assert_eq!(order_texts("b", "a"), 1);
    assert_eq!(order_texts("ab", "abc"), -1);
    assert_eq!(order_texts("abc", "ab"), 1);
    assert_eq!(order_texts("B", "a"), -1);
    assert_eq!(order_texts("z", "é"), -1);
}
