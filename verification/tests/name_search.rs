//! Tests of the unique-name search and the decimal rendering it builds on.

use signed_struct::names::candidate_string;
use signed_struct::names::to_decimal;
use signed_struct::names::unique_field_name;

#[test]
fn decimal_rendering_single_digit() {
    assert_eq!(to_decimal(0), "0");
    assert_eq!(to_decimal(7), "7");
}

#[test]
fn decimal_rendering_multi_digit() {
    assert_eq!(to_decimal(10), "10");
    assert_eq!(to_decimal(907), "907");
    assert_eq!(to_decimal(1000), "1000");
}

#[test]
fn candidate_carries_prefix_and_counter() {
    assert_eq!(candidate_string(0), "_json0");
    assert_eq!(candidate_string(12), "_json12");
}

#[test]
fn empty_name_set_selects_counter_zero() {
    let names: Vec<String> = Vec::new();
    assert_eq!(unique_field_name(&names), "_json0");
}

#[test]
fn taken_candidates_select_next_counter() {
    let names = vec![
        "_json0".to_string(),
        "_json1".to_string(),
        "_json2".to_string(),
    ];
    assert_eq!(unique_field_name(&names), "_json3");
}

#[test]
fn gap_in_taken_candidates_is_filled() {
    let names = vec!["_json1".to_string(), "_json3".to_string()];
    assert_eq!(unique_field_name(&names), "_json0");
}

#[test]
fn unrelated_names_do_not_block_counter_zero() {
    let names = vec!["id".to_string(), "payload".to_string()];
    assert_eq!(unique_field_name(&names), "_json0");
}

#[test]
fn selection_reaches_multi_digit_counters() {
    let names: Vec<String> = (0..12).map(|k| format!("_json{}", k)).collect();
    assert_eq!(unique_field_name(&names), "_json12");
}

#[test]
fn selection_is_deterministic() {
    let names = vec!["_json0".to_string(), "other".to_string()];
    let first = unique_field_name(&names);
    let second = unique_field_name(&names);
    assert_eq!(first, second);
    assert_eq!(first, "_json1");
}

#[test]
fn selection_is_independent_of_declaration_order() {
    let forward = vec!["_json0".to_string(), "x".to_string()];
    let backward = vec!["x".to_string(), "_json0".to_string()];
    assert_eq!(unique_field_name(&forward), unique_field_name(&backward));
    assert_eq!(unique_field_name(&forward), "_json1");
}
