use rrss_cli_rs::strmap::StrMap;

#[test]
fn new_map_is_empty() {
    let m: StrMap<u32> = StrMap::new();
    assert_eq!(m.len(), 0);
    assert!(!m.contains_key(""));
    assert_eq!(m.get("a"), None);
}

#[test]
fn insert_then_get() {
    let mut m: StrMap<u32> = StrMap::new();
    m.insert("a".to_string(), 1);
    m.insert("b".to_string(), 2);
    assert_eq!(m.len(), 2);
    assert_eq!(m.get("a"), Some(&1));
    assert_eq!(m.get("b"), Some(&2));
    assert_eq!(m.get("c"), None);
    assert!(m.contains_key("b"));
}

#[test]
fn insert_replaces_and_keeps_the_place() {
    let mut m: StrMap<u32> = StrMap::new();
    m.insert("a".to_string(), 1);
    m.insert("b".to_string(), 2);
    m.insert("a".to_string(), 3);
    assert_eq!(m.len(), 2);
    assert_eq!(m.get("a"), Some(&3));
    assert_eq!(m.key_at(0), "a");
    assert_eq!(m.value_at(0), &3);
    assert_eq!(m.key_at(1), "b");
    assert_eq!(m.value_at(1), &2);
}

#[test]
fn keys_are_compared_by_their_characters() {
    let mut m: StrMap<u32> = StrMap::new();
    m.insert("é".to_string(), 1);
    m.insert("e".to_string(), 2);
    m.insert("E".to_string(), 3);
    assert_eq!(m.len(), 3);
    assert_eq!(m.get("é"), Some(&1));
    assert_eq!(m.get("e"), Some(&2));
}

#[test]
fn duplicate_is_a_copy() {
    let mut m: StrMap<String> = StrMap::new();
    m.insert("bg".to_string(), "#000000".to_string());
    m.insert("primary".to_string(), "#ffffff".to_string());
    let mut copy = m.duplicate();
    assert_eq!(copy.len(), 2);
    assert_eq!(copy.get("bg").unwrap(), "#000000");
    assert_eq!(copy.key_at(1), "primary");
    copy.insert("bg".to_string(), "#111111".to_string());
    assert_eq!(m.get("bg").unwrap(), "#000000");
    assert_eq!(copy.get("bg").unwrap(), "#111111");
}

#[test]
fn duplicate_of_a_catalog_copies_the_themes() {
    let mut inner: StrMap<String> = StrMap::new();
    inner.insert("bg".to_string(), "#000000".to_string());
    let mut outer: StrMap<StrMap<String>> = StrMap::new();
    outer.insert("mine".to_string(), inner);
    let copy = outer.duplicate();
    assert_eq!(copy.len(), 1);
    assert_eq!(copy.get("mine").unwrap().get("bg").unwrap(), "#000000");
}
