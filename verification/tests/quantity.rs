use k8s::kube_stats::helpers::{
    convert_cpu_usage_to_milli, convert_memory_usage_to_bytes, cpu_millis_from_parts,
    cpu_millis_of, cpu_unit_unknown_of, has_unknown_cpu_unit, memory_bytes_from_parts,
    memory_bytes_of, skip_serializing_int32, skip_serializing_int64, split_quantity,
};

fn chars(text: &str) -> Vec<char> {
    text.chars().collect()
}

#[test]
fn quantity_is_split_into_number_and_letters() {
    assert_eq!(split_quantity("128Mi", false), (chars("128"), chars("Mi")));
    assert_eq!(split_quantity("1.5Gi", false), (chars("15"), chars("Gi")));
    assert_eq!(split_quantity("1.5Gi", true), (chars("1.5"), chars("Gi")));
    assert_eq!(split_quantity(" 5_0 m-u ", true), (chars("50"), chars("mu")));
    assert_eq!(split_quantity("5\u{b5}\u{663}", true), (chars("5"), chars("\u{b5}")));
    assert_eq!(split_quantity("", true), (chars(""), chars("")));
}

#[test]
fn cpu_from_characters() {
    assert_eq!(cpu_millis_of(&chars("500"), &chars("m")), 500);
    assert_eq!(cpu_millis_of(&chars("2"), &chars("")), 2000);
    assert_eq!(cpu_millis_of(&chars("0.5"), &chars("")), 500);
    assert_eq!(cpu_millis_of(&chars("100"), &chars("u")), 1);
    assert_eq!(cpu_millis_of(&chars("123456789"), &chars("n")), 124);
    assert_eq!(cpu_millis_of(&chars("2000000"), &chars("M")), 2);
    assert_eq!(cpu_millis_of(&chars(""), &chars("m")), 0);
    assert_eq!(cpu_millis_of(&chars("1.2.3"), &chars("")), 0);
}

#[test]
fn memory_from_characters() {
    assert_eq!(memory_bytes_of(&chars("128"), &chars("mi")), 128 * 1024 * 1024);
    assert_eq!(memory_bytes_of(&chars("1"), &chars("gi")), 1024 * 1024 * 1024);
    assert_eq!(memory_bytes_of(&chars("500"), &chars("k")), 500000);
    assert_eq!(memory_bytes_of(&chars("1"), &chars("xi")), 1024);
    assert_eq!(memory_bytes_of(&chars("1"), &chars("Gi")), 1024);
    assert_eq!(memory_bytes_of(&chars(""), &chars("")), 0);
    assert_eq!(memory_bytes_of(&chars("7"), &chars("")), 7);
    assert_eq!(memory_bytes_of(&chars("1.5"), &chars("gi")), 0);
}

#[test]
fn unknown_cpu_units_are_told() {
    assert!(has_unknown_cpu_unit("5k"));
    assert!(has_unknown_cpu_unit("2000000x"));
    assert!(has_unknown_cpu_unit("5mm"));
    assert!(has_unknown_cpu_unit("5M"));
    assert!(has_unknown_cpu_unit("5\u{b5}"));
    assert!(has_unknown_cpu_unit("2.5k"));
    assert!(!has_unknown_cpu_unit("500m"));
    assert!(!has_unknown_cpu_unit("100u"));
    assert!(!has_unknown_cpu_unit("123456789n"));
    assert!(!has_unknown_cpu_unit("2"));
    assert!(!has_unknown_cpu_unit(""));
    assert!(!has_unknown_cpu_unit("k"));
    assert!(!has_unknown_cpu_unit("0k"));
    assert!(!has_unknown_cpu_unit("0.5k"));
    assert!(!has_unknown_cpu_unit("1.2.3k"));
    assert!(cpu_unit_unknown_of(&chars("5"), &chars("k")));
    assert!(!cpu_unit_unknown_of(&chars("5"), &chars("n")));
    assert!(!cpu_unit_unknown_of(&chars("5"), &chars("")));
    assert!(!cpu_unit_unknown_of(&chars("x"), &chars("k")));
}

#[test]
fn cpu_millicores_pass_through() {
    assert_eq!(convert_cpu_usage_to_milli("500m"), 500);
}

#[test]
fn cpu_whole_cores() {
    assert_eq!(convert_cpu_usage_to_milli("2"), 2000);
}

#[test]
fn cpu_fractional_cores() {
    assert_eq!(convert_cpu_usage_to_milli("0.5"), 500);
    assert_eq!(convert_cpu_usage_to_milli(".5"), 500);
    assert_eq!(convert_cpu_usage_to_milli("1.5"), 1500);
    assert_eq!(convert_cpu_usage_to_milli("0.0001"), 1);
    assert_eq!(convert_cpu_usage_to_milli("0.1234"), 124);
    assert_eq!(convert_cpu_usage_to_milli("0.25"), 250);
    assert_eq!(convert_cpu_usage_to_milli("5."), 5000);
}

#[test]
fn cpu_microcores_round_up() {
    assert_eq!(convert_cpu_usage_to_milli("100u"), 1);
    assert_eq!(convert_cpu_usage_to_milli("1000u"), 1);
    assert_eq!(convert_cpu_usage_to_milli("1001u"), 2);
}

#[test]
fn cpu_nanocores_round_up() {
    assert_eq!(convert_cpu_usage_to_milli("123456789n"), 124);
    assert_eq!(convert_cpu_usage_to_milli("1000000n"), 1);
    assert_eq!(convert_cpu_usage_to_milli("1n"), 1);
}

#[test]
fn cpu_empty_is_zero() {
    assert_eq!(convert_cpu_usage_to_milli(""), 0);
    assert_eq!(convert_cpu_usage_to_milli("m"), 0);
    assert_eq!(convert_cpu_usage_to_milli("."), 0);
    assert_eq!(convert_cpu_usage_to_milli("1.2.3"), 0);
}

#[test]
fn cpu_unknown_unit_counts_as_nanocores() {
    assert_eq!(convert_cpu_usage_to_milli("2000000x"), 2);
    assert_eq!(convert_cpu_usage_to_milli("5k"), 1);
}

#[test]
fn cpu_zero_with_unit_is_a_core_count() {
    assert_eq!(convert_cpu_usage_to_milli("0m"), 0);
    assert_eq!(convert_cpu_usage_to_milli("0.5m"), 500);
}

#[test]
fn cpu_point_is_dropped_under_a_unit() {
    assert_eq!(convert_cpu_usage_to_milli("2.5m"), 25);
}

#[test]
fn cpu_stops_at_the_largest_value() {
    assert_eq!(convert_cpu_usage_to_milli("2147483"), 2147483000);
    assert_eq!(convert_cpu_usage_to_milli("2147484"), i32::MAX);
    assert_eq!(convert_cpu_usage_to_milli("99999999999999999999999999999999999999999"), i32::MAX);
    assert_eq!(convert_cpu_usage_to_milli("99999999999999999999999999999999999999999n"), i32::MAX);
    assert_eq!(convert_cpu_usage_to_milli("2147483647m"), i32::MAX);
    assert_eq!(convert_cpu_usage_to_milli("2147483648m"), i32::MAX);
}

#[test]
fn cpu_other_characters_are_passed_over() {
    assert_eq!(convert_cpu_usage_to_milli(" 500 m "), 500);
    assert_eq!(convert_cpu_usage_to_milli("-2"), 2000);
}

#[test]
fn cpu_letters_beyond_ascii_make_a_unit() {
    assert_eq!(convert_cpu_usage_to_milli("5\u{b5}"), 1);
}

#[test]
fn cpu_from_parts() {
    assert_eq!(cpu_millis_from_parts("500", "m"), 500);
    assert_eq!(cpu_millis_from_parts("2", ""), 2000);
    assert_eq!(cpu_millis_from_parts("0.5", ""), 500);
    assert_eq!(cpu_millis_from_parts("100", "u"), 1);
    assert_eq!(cpu_millis_from_parts("123456789", "n"), 124);
    assert_eq!(cpu_millis_from_parts("", ""), 0);
    assert_eq!(cpu_millis_from_parts("12a", "m"), 0);
}

#[test]
fn memory_binary_units() {
    assert_eq!(convert_memory_usage_to_bytes("128Mi"), 128 * 1024 * 1024);
    assert_eq!(convert_memory_usage_to_bytes("1Gi"), 1024 * 1024 * 1024);
    assert_eq!(convert_memory_usage_to_bytes("3Ki"), 3 * 1024);
    assert_eq!(convert_memory_usage_to_bytes("2Ti"), 2 * 1024 * 1024 * 1024 * 1024);
}

#[test]
fn memory_decimal_units() {
    assert_eq!(convert_memory_usage_to_bytes("500k"), 500000);
    assert_eq!(convert_memory_usage_to_bytes("7M"), 7000000);
    assert_eq!(convert_memory_usage_to_bytes("7G"), 7000000000);
}

#[test]
fn memory_plain_bytes() {
    assert_eq!(convert_memory_usage_to_bytes("4096"), 4096);
}

#[test]
fn memory_empty_is_zero() {
    assert_eq!(convert_memory_usage_to_bytes(""), 0);
    assert_eq!(convert_memory_usage_to_bytes("Mi"), 0);
}

#[test]
fn memory_unknown_unit_counts_like_ki() {
    assert_eq!(convert_memory_usage_to_bytes("1Xi"), 1024);
    assert_eq!(convert_memory_usage_to_bytes("3Pi"), 3 * 1024);
}

#[test]
fn memory_unit_is_lower_cased_by_unicode() {
    assert_eq!(convert_memory_usage_to_bytes("5\u{212a}"), 5000);
}

#[test]
fn memory_amount_beyond_i64_is_zero() {
    assert_eq!(convert_memory_usage_to_bytes("9223372036854775807"), i64::MAX);
    assert_eq!(convert_memory_usage_to_bytes("9223372036854775808"), 0);
    assert_eq!(convert_memory_usage_to_bytes("0000000000000000000000000000000000007"), 7);
}

#[test]
fn memory_product_stops_at_the_largest_value() {
    assert_eq!(convert_memory_usage_to_bytes("9223372036854775807Ki"), i64::MAX);
    assert_eq!(convert_memory_usage_to_bytes("8388608Ti"), i64::MAX);
    assert_eq!(convert_memory_usage_to_bytes("8388607Ti"), 8388607 * 1099511627776);
}

#[test]
fn memory_point_is_passed_over() {
    assert_eq!(convert_memory_usage_to_bytes("1.5Gi"), 15 * 1024 * 1024 * 1024);
}

#[test]
fn memory_from_parts() {
    assert_eq!(memory_bytes_from_parts("128", "mi"), 128 * 1024 * 1024);
    assert_eq!(memory_bytes_from_parts("128", "Mi"), 128 * 1024);
    assert_eq!(memory_bytes_from_parts("500", "k"), 500000);
    assert_eq!(memory_bytes_from_parts("", "k"), 0);
    assert_eq!(memory_bytes_from_parts("1x", "k"), 0);
    assert_eq!(memory_bytes_from_parts("12", ""), 12);
}

#[test]
fn negative_values_are_skipped() {
    assert!(skip_serializing_int64(&-1));
    assert!(!skip_serializing_int64(&0));
    assert!(!skip_serializing_int64(&5));
    assert!(skip_serializing_int32(&-7));
    assert!(!skip_serializing_int32(&0));
}
