//! Tests of the character-level string comparisons.

use image_store_actions::strings::starts_with_prefix;
use image_store_actions::strings::str_eq;

#[test]
fn prefix_of_longer_string() {
    assert!(starts_with_prefix("image_store_noop_action", "image_store_"));
}

#[test]
fn prefix_equal_to_whole_string() {
    assert!(starts_with_prefix("image_store_", "image_store_"));
}

#[test]
fn shorter_string_has_no_long_prefix() {
    assert!(!starts_with_prefix("image", "image_store_"));
}

#[test]
fn mismatching_prefix_is_rejected() {
    assert!(!starts_with_prefix("other_prefix_x", "image_store_"));
}

#[test]
fn empty_prefix_matches_everything() {
    assert!(starts_with_prefix("", ""));
    assert!(starts_with_prefix("anything", ""));
}

#[test]
fn prefix_counts_characters_not_bytes() {
    assert!(starts_with_prefix("snapshot\u{00e9}_rest", "snapshot\u{00e9}_"));
    assert!(!starts_with_prefix("snapshot\u{00e8}_rest", "snapshot\u{00e9}_"));
}

#[test]
fn equal_strings_compare_equal() {
    assert!(str_eq("image_store_noop_action", "image_store_noop_action"));
    assert!(str_eq("", ""));
}

#[test]
fn different_strings_compare_unequal() {
    assert!(!str_eq("image_store_noop_action", "image_store_noop"));
    assert!(!str_eq("image_store_noop_action", "image_store_noop_actioN"));
    assert!(!str_eq("", "x"));
}
