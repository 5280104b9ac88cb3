use kvbench::dataset::{generate_dataset, VALUE_REPEAT};
use kvbench::text::{decimal_string, repeat_string};

#[test]
fn decimal_rendering() {
    assert_eq!(decimal_string(0), "0");
    assert_eq!(decimal_string(7), "7");
    assert_eq!(decimal_string(10), "10");
    assert_eq!(decimal_string(105), "105");
    assert_eq!(decimal_string(99000), "99000");
}

#[test]
fn repeated_payload() {
    assert_eq!(repeat_string("ab", 3), "ababab");
    assert_eq!(repeat_string("val0", 0), "");
    assert_eq!(repeat_string("", 5), "");
}

#[test]
fn generates_expected_entries() {
    let d = generate_dataset(5);
    assert_eq!(d.len(), 5);
    for i in 0..5 {
        let e = d.entry(i);
        assert_eq!(e.0, format!("key{}", i));
        assert_eq!(e.1, format!("val{}", i).repeat(VALUE_REPEAT));
    }
}

#[test]
fn generates_unique_keys() {
    let d = generate_dataset(12);
    assert_eq!(d.len(), 12);
    for i in 0..12 {
        for j in 0..12 {
            if i != j {
                assert_ne!(d.entry(i).0, d.entry(j).0);
            }
        }
    }
    assert_eq!(d.entry(10).0, "key10");
    assert_eq!(d.entry(11).0, "key11");
}

#[test]
fn generation_is_deterministic() {
    let a = generate_dataset(9);
    let b = generate_dataset(9);
    assert_eq!(a.len(), b.len());
    for i in 0..9 {
        assert_eq!(a.entry(i), b.entry(i));
    }
}

#[test]
fn empty_dataset() {
    let d = generate_dataset(0);
    assert_eq!(d.len(), 0);
}
