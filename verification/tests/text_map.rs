use song_catalog::TextMap;

#[test]
fn new_map_is_empty() {
    let map: TextMap<String> = TextMap::new();
    assert_eq!(map.len(), 0);
    assert!(map.get("a").is_none());
    assert!(map.entry(0).is_none());
}

#[test]
fn insert_appends_new_names_in_order() {
    let mut map: TextMap<String> = TextMap::new();
    map.insert("b".to_string(), "1".to_string());
    map.insert("a".to_string(), "2".to_string());
    map.insert("".to_string(), "3".to_string());
    assert_eq!(map.len(), 3);
    assert_eq!(map.get("b").unwrap(), "1");
    assert_eq!(map.get("a").unwrap(), "2");
    assert_eq!(map.get("").unwrap(), "3");
    let names: Vec<&str> = (0..3).map(|i| map.entry(i).unwrap().0.as_str()).collect();
    assert_eq!(names, vec!["b", "a", ""]);
}

#[test]
fn insert_replaces_the_value_of_a_present_name_in_place() {
    let mut map: TextMap<String> = TextMap::new();
    map.insert("x".to_string(), "old".to_string());
    map.insert("y".to_string(), "other".to_string());
    map.insert("x".to_string(), "new".to_string());
    assert_eq!(map.len(), 2);
    assert_eq!(map.get("x").unwrap(), "new");
    assert_eq!(map.entry(0).unwrap().1, "new");
    assert_eq!(map.entry(1).unwrap().0, "y");
}

#[test]
fn names_are_compared_exactly() {
    let mut map: TextMap<String> = TextMap::new();
    map.insert("Wav".to_string(), "1".to_string());
    assert!(map.get("wav").is_none());
    assert!(map.get("Wav ").is_none());
    assert_eq!(map.get("Wav").unwrap(), "1");
}
