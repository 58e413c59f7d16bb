//! The modular-indexing and option-combinator helpers.

use tui_forms::stdlib_utils::{and_then_or, nth_mod};

#[test]
fn test_mod_iter() {
    let a: Vec<i32> = vec![0, 1, 2, 3, 4];
    assert_eq!(Some(&0), nth_mod(&a, 0));
    assert_eq!(Some(&1), nth_mod(&a, 1));
    assert_eq!(Some(&4), nth_mod(&a, -1));
    assert_eq!(Some(&3), nth_mod(&a, -2));
    assert_eq!(Some(&0), nth_mod(&a, 5));
    assert_eq!(Some(&0), nth_mod(&a, -5));
    let empty: Vec<i32> = Vec::new();
    assert_eq!(None as Option<&i32>, nth_mod(&empty, 0));
}

#[test]
fn option_apply_works() {
    let (x, y, z) = (1i8, 2i8, 3i8);
    let none: Option<i8> = None;

    assert_eq!(and_then_or(none, |_| none, none), none);
    assert_eq!(and_then_or(none, |_| none, Some(z)), Some(z));
    assert_eq!(and_then_or(none, |_| Some(y), none), none);
    assert_eq!(and_then_or(none, |_| Some(y), Some(z)), Some(z));
    assert_eq!(and_then_or(Some(x), |_| none, none), none);
    assert_eq!(and_then_or(Some(x), |_| none, Some(z)), none);
    assert_eq!(and_then_or(Some(x), |_| Some(y), none), Some(y));
    assert_eq!(and_then_or(Some(x), |_| Some(y), Some(z)), Some(y));
}
