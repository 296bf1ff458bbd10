use audio_cpp::StringMap;

#[test]
fn insert_then_get_returns_the_value() {
    let mut map = StringMap::new();
    map.insert("b".to_string(), "2".to_string());
    map.insert("a".to_string(), "1".to_string());
    assert_eq!(map.get("a").map(String::as_str), Some("1"));
    assert_eq!(map.get("b").map(String::as_str), Some("2"));
    assert_eq!(map.get("c"), None);
    assert!(map.contains_key("a"));
    assert!(!map.contains_key("c"));
}

#[test]
fn later_insert_replaces_the_value() {
    let mut map = StringMap::default();
    map.insert("k".to_string(), "old".to_string());
    map.insert("k".to_string(), "new".to_string());
    assert_eq!(map.len(), 1);
    assert_eq!(map.get("k").map(String::as_str), Some("new"));
}

#[test]
fn entries_come_in_byte_order() {
    let mut map = StringMap::new();
    for key in ["zeta", "alpha", "Beta", "é", "al", "alphabet"] {
        map.insert(key.to_string(), key.to_uppercase());
    }
    let keys: Vec<&str> = map.entries().iter().map(|(k, _)| k.as_str()).collect();
    let mut sorted = vec!["zeta", "alpha", "Beta", "é", "al", "alphabet"];
    sorted.sort();
    assert_eq!(keys, sorted);
}

#[test]
fn same_contents_iterate_the_same() {
    let mut a = StringMap::new();
    a.insert("x".to_string(), "1".to_string());
    a.insert("y".to_string(), "2".to_string());
    let mut b = StringMap::new();
    b.insert("y".to_string(), "2".to_string());
    b.insert("x".to_string(), "1".to_string());
    assert_eq!(a.entries(), b.entries());
    assert_eq!(a.clone(), b);
}

#[test]
fn empty_map() {
    let map = StringMap::new();
    assert!(map.is_empty());
    assert_eq!(map.len(), 0);
    assert!(map.entries().is_empty());
}
