use egui_viewport::ViewportId;
use std::collections::hash_map::DefaultHasher;
use std::hash::{Hash, Hasher};

fn hash_of(id: &ViewportId) -> u64 {
    let mut h = DefaultHasher::new();
    id.hash(&mut h);
    h.finish()
}

#[test]
fn ids_from_same_raw_value_are_equal_and_hash_equal() {
    let a = ViewportId::from_raw(7);
    let b = ViewportId::from_raw(7);
    assert_eq!(a, b);
    assert_eq!(hash_of(&a), hash_of(&b));
    assert_ne!(ViewportId::from_raw(7), ViewportId::from_raw(8));
}

#[test]
fn main_identity_is_stable_and_is_the_default() {
    assert_eq!(ViewportId::main_id(), ViewportId::main_id());
    assert_eq!(ViewportId::main_id(), ViewportId::from_raw(0));
    assert_eq!(ViewportId::default(), ViewportId::main_id());
    assert_eq!(hash_of(&ViewportId::main_id()), hash_of(&ViewportId::main_id()));
}

#[test]
fn ids_are_copyable_values() {
    let a = ViewportId::from_raw(42);
    let b = a;
    assert_eq!(a, b);
}

#[test]
fn display_string_renders_decimal() {
    assert_eq!(ViewportId::from_raw(0).display_string(), "0");
    assert_eq!(ViewportId::from_raw(7).display_string(), "7");
    assert_eq!(ViewportId::from_raw(10).display_string(), "10");
    assert_eq!(ViewportId::from_raw(1234567890).display_string(), "1234567890");
    assert_eq!(
        ViewportId::from_raw(u64::MAX).display_string(),
        "18446744073709551615"
    );
}
