use test_optimization_sdk::name_map::NameMap;

fn names_of<V>(m: &NameMap<V>) -> Vec<String> {
    let mut out = Vec::new();
    let mut i = 0;
    while let Some((name, _)) = m.entry(i) {
        out.push(name.clone());
        i += 1;
    }
    out
}

#[test]
fn new_map_is_empty() {
    let m: NameMap<u64> = NameMap::new();
    assert_eq!(m.len(), 0);
    assert_eq!(m.get("a"), None);
    assert_eq!(m.find("a"), None);
    assert_eq!(m.entry(0), None);
}

#[test]
fn insert_keeps_order_of_first_insertion() {
    let mut m: NameMap<u64> = NameMap::new();
    m.insert("b".to_string(), 1);
    m.insert("a".to_string(), 2);
    m.insert("c".to_string(), 3);
    assert_eq!(m.len(), 3);
    assert_eq!(names_of(&m), vec!["b", "a", "c"]);
    assert_eq!(m.find("a"), Some(1));
    assert_eq!(m.get("c"), Some(&3));
    assert_eq!(m.entry(0), Some((&"b".to_string(), &1)));
    assert_eq!(m.entry(3), None);
}

#[test]
fn last_write_for_a_name_wins() {
    let mut m: NameMap<String> = NameMap::new();
    m.insert("k".to_string(), "first".to_string());
    m.insert("other".to_string(), "x".to_string());
    m.insert("k".to_string(), "second".to_string());
    assert_eq!(m.len(), 2);
    assert_eq!(m.get("k"), Some(&"second".to_string()));
    assert_eq!(names_of(&m), vec!["k", "other"]);
}

#[test]
fn insert_if_absent_keeps_the_first_value() {
    let mut m: NameMap<u64> = NameMap::new();
    assert!(m.insert_if_absent("k".to_string(), 1));
    assert!(!m.insert_if_absent("k".to_string(), 2));
    assert!(m.insert_if_absent("j".to_string(), 3));
    assert_eq!(m.get("k"), Some(&1));
    assert_eq!(m.get("j"), Some(&3));
    assert_eq!(m.len(), 2);
}

#[test]
fn overwriting_keeps_the_place_of_a_name() {
    let mut m: NameMap<u64> = NameMap::new();
    m.insert("a".to_string(), 1);
    m.insert("b".to_string(), 2);
    m.insert("c".to_string(), 3);
    m.insert("a".to_string(), 10);
    m.insert("c".to_string(), 30);
    assert_eq!(m.get("a"), Some(&10));
    assert_eq!(m.get("b"), Some(&2));
    assert_eq!(m.get("c"), Some(&30));
    assert_eq!(names_of(&m), vec!["a", "b", "c"]);
    assert_eq!(m.find("c"), Some(2));
}

#[test]
fn names_are_compared_as_whole_strings() {
    let mut m: NameMap<u64> = NameMap::new();
    m.insert("ab".to_string(), 1);
    assert_eq!(m.get("a"), None);
    assert_eq!(m.get("abc"), None);
    assert_eq!(m.get(""), None);
    m.insert("".to_string(), 2);
    assert_eq!(m.get(""), Some(&2));
}
