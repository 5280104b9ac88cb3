use kvbench::dataset::generate_dataset;
use kvbench::ops::{run_get, run_set, StoreError};
use kvbench::store::ModelStore;

#[test]
fn model_store_set_and_get() {
    let mut s = ModelStore::new();
    assert_eq!(s.get("key0"), None);
    s.set("key0", "a");
    assert_eq!(s.get("key0"), Some(&"a".to_string()));
    s.set("key0", "b");
    assert_eq!(s.get("key0"), Some(&"b".to_string()));
    assert_eq!(s.get("key1"), None);
}

#[test]
fn set_then_get_finds_every_key() {
    let d = generate_dataset(4);
    let mut s = ModelStore::new();
    assert_eq!(run_set(&d, &mut s, None), Ok(4));
    assert_eq!(run_get(&d, &s, None), Ok(4));
}

#[test]
fn set_then_get_on_empty_dataset() {
    let d = generate_dataset(0);
    let mut s = ModelStore::new();
    assert_eq!(run_set(&d, &mut s, None), Ok(0));
    assert_eq!(run_get(&d, &s, None), Ok(0));
}

#[test]
fn get_alone_finds_nothing_and_does_not_fail() {
    let d = generate_dataset(3);
    let s = ModelStore::new();
    assert_eq!(run_get(&d, &s, None), Ok(0));
}

#[test]
fn set_failure_aborts_remaining_writes() {
    let d = generate_dataset(3);
    let mut s = ModelStore::new();
    assert_eq!(run_set(&d, &mut s, Some(1)), Err(StoreError));
    assert!(s.get("key0").is_some());
    assert_eq!(s.get("key1"), None);
    assert_eq!(s.get("key2"), None);
}

#[test]
fn get_failure_aborts_the_pass() {
    let d = generate_dataset(3);
    let mut s = ModelStore::new();
    assert_eq!(run_set(&d, &mut s, None), Ok(3));
    assert_eq!(run_get(&d, &s, Some(2)), Err(StoreError));
}

#[test]
fn out_of_range_failure_injection_is_harmless() {
    let d = generate_dataset(2);
    let mut s = ModelStore::new();
    assert_eq!(run_set(&d, &mut s, Some(2)), Ok(2));
    assert_eq!(run_get(&d, &s, Some(5)), Ok(2));
}
