use rclib::{NameSet, StringMap};

#[test]
fn a_map_keeps_the_order_of_first_binding() {
    let mut m = StringMap::new();
    assert!(m.is_empty());
    assert!(!m.insert("b".to_string(), "1".to_string()));
    assert!(!m.insert("a".to_string(), "2".to_string()));
    assert!(m.insert("b".to_string(), "3".to_string()));
    assert_eq!(m.len(), 2);
    assert_eq!(m.key_at(0), "b");
    assert_eq!(m.value_at(0), "3");
    assert_eq!(m.key_at(1), "a");
    assert_eq!(m.value_at(1), "2");
    assert_eq!(m.position("a"), 1);
    assert_eq!(m.position("zz"), 2);
    assert_eq!(m.get("a"), Some(&"2".to_string()));
    assert_eq!(m.get("c"), None);
    assert!(m.contains_key("b"));
    assert!(!m.contains_key("B"));
    assert!(!m.is_empty());
}

#[test]
fn a_copy_of_a_map_is_independent() {
    let mut m = StringMap::new();
    m.insert("k".to_string(), "v".to_string());
    let mut c = m.clone();
    c.insert("k".to_string(), "w".to_string());
    c.insert("l".to_string(), "x".to_string());
    assert_eq!(m.get("k"), Some(&"v".to_string()));
    assert_eq!(m.len(), 1);
    assert_eq!(c.get("k"), Some(&"w".to_string()));
    assert_eq!(c.len(), 2);
}

#[test]
fn a_set_holds_each_name_once() {
    let mut s = NameSet::new();
    assert!(s.is_empty());
    assert!(s.insert("x".to_string()));
    assert!(!s.insert("x".to_string()));
    assert!(s.insert("y".to_string()));
    assert!(s.contains("x"));
    assert!(s.contains("y"));
    assert!(!s.contains("z"));
    assert!(!s.contains(""));
    assert!(!s.is_empty());
}
