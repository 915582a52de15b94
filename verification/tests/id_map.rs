use toguru::id_map::IdMap;

#[test]
fn empty_map_knows_nothing() {
    let map: IdMap<u32> = IdMap::new();
    assert!(!map.contains_key("a"));
    assert_eq!(map.get("a"), None);
    assert!(map.keys().is_empty());
}

#[test]
fn insert_then_get_gives_value() {
    let mut map = IdMap::new();
    assert_eq!(map.insert("lamp".to_string(), 7u32), None);
    assert!(map.contains_key("lamp"));
    assert_eq!(map.get("lamp"), Some(&7));
    assert_eq!(map.get("fan"), None);
}

#[test]
fn insert_replaces_and_returns_previous() {
    let mut map = IdMap::new();
    map.insert("lamp".to_string(), 1u32);
    map.insert("fan".to_string(), 2u32);
    assert_eq!(map.insert("lamp".to_string(), 3u32), Some(1));
    assert_eq!(map.get("lamp"), Some(&3));
    assert_eq!(map.get("fan"), Some(&2));
    let mut keys = map.keys();
    keys.sort();
    assert_eq!(keys, vec!["fan".to_string(), "lamp".to_string()]);
}
