use kv_store::store::{KvStore, Value};

fn entry(key: &str, value: &str) -> Value {
    Value { key: key.to_string(), value: value.to_string() }
}

#[test]
fn new_store_is_empty() {
    let s = KvStore::new();
    assert_eq!(s.get("anything"), None);
    assert_eq!(s.get(""), None);
}

#[test]
fn get_after_set_returns_value() {
    let mut s = KvStore::new();
    s.set(entry("k", "v"));
    assert_eq!(s.get("k"), Some("v".to_string()));
    s.set(entry("other", "x"));
    s.remove("another");
    assert_eq!(s.get("k"), Some("v".to_string()));
}

#[test]
fn remove_twice_same_as_once() {
    let mut once = KvStore::new();
    once.set(entry("k", "v"));
    once.remove("k");
    let mut twice = KvStore::new();
    twice.set(entry("k", "v"));
    twice.remove("k");
    twice.remove("k");
    assert_eq!(once.get("k"), None);
    assert_eq!(twice.get("k"), None);
}

#[test]
fn remove_missing_key_is_noop() {
    let mut s = KvStore::new();
    s.set(entry("a", "1"));
    s.remove("b");
    assert_eq!(s.get("a"), Some("1".to_string()));
    assert_eq!(s.get("b"), None);
}

#[test]
fn last_write_wins() {
    let mut s = KvStore::new();
    s.set(entry("k", "v1"));
    s.set(entry("k", "v2"));
    assert_eq!(s.get("k"), Some("v2".to_string()));
}

#[test]
fn keys_are_isolated() {
    let mut s = KvStore::new();
    s.set(entry("a", "1"));
    s.set(entry("b", "2"));
    assert_eq!(s.get("a"), Some("1".to_string()));
    assert_eq!(s.get("b"), Some("2".to_string()));

    let mut t = KvStore::new();
    t.set(entry("b", "2"));
    t.set(entry("a", "1"));
    assert_eq!(t.get("a"), Some("1".to_string()));
    assert_eq!(t.get("b"), Some("2".to_string()));
}

#[test]
fn absent_key_is_none() {
    let s = KvStore::new();
    assert_eq!(s.get("nope"), None);
}

#[test]
fn empty_key_and_value_are_stored() {
    let mut s = KvStore::new();
    s.set(entry("", ""));
    assert_eq!(s.get(""), Some(String::new()));
    s.remove("");
    assert_eq!(s.get(""), None);
}

#[test]
fn many_sets_of_one_key_leave_one_value() {
    let mut s = KvStore::new();
    let values: Vec<String> = (0..50).map(|i| format!("value-{}", i)).collect();
    for v in values.iter() {
        s.set(entry("k", v));
    }
    let got = s.get("k").unwrap();
    assert!(values.contains(&got));
    assert_eq!(got, "value-49");
}
