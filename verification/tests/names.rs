//! The span-name helper.

use state_sync::names::last_component_of_name;

#[test]
fn test_last_component_of_path() {
    assert_eq!(last_component_of_name("abc::bcd::cde"), "cde");
}

#[test]
fn test_last_component_of_plain_name() {
    assert_eq!(last_component_of_name("abc"), "abc");
}

#[test]
fn test_last_component_of_empty_tail() {
    assert_eq!(last_component_of_name("abc::"), "");
    assert_eq!(last_component_of_name(""), "");
}
