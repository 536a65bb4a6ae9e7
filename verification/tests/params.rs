use ghactions_core::ParamMap;

#[test]
fn new_map_is_empty() {
    let map: ParamMap<u8> = ParamMap::new();
    assert_eq!(map.len(), 0);
    assert!(map.is_empty());
    assert!(!map.contains_key("a"));
    assert_eq!(map.get("a"), None);
    assert_eq!(map.get_index(0), None);
}

#[test]
fn insert_keeps_the_order_of_first_insertion() {
    let mut map: ParamMap<u8> = ParamMap::new();
    assert_eq!(map.insert("b".to_string(), 1), None);
    assert_eq!(map.insert("a".to_string(), 2), None);
    assert_eq!(map.insert("c".to_string(), 3), None);
    assert_eq!(map.len(), 3);
    assert!(!map.is_empty());
    assert_eq!(map.get_index(0), Some((&"b".to_string(), &1)));
    assert_eq!(map.get_index(1), Some((&"a".to_string(), &2)));
    assert_eq!(map.get_index(2), Some((&"c".to_string(), &3)));
    assert_eq!(map.get_index(3), None);
    assert_eq!(map.insert("a".to_string(), 9), Some(2));
    assert_eq!(map.len(), 3);
    assert_eq!(map.get_index(0), Some((&"b".to_string(), &1)));
    assert_eq!(map.get_index(1), Some((&"a".to_string(), &9)));
    assert_eq!(map.get_index(2), Some((&"c".to_string(), &3)));
    assert_eq!(map.get("a"), Some(&9));
    assert_eq!(map.get("b"), Some(&1));
    assert_eq!(map.get("d"), None);
    assert!(map.contains_key("c"));
    assert!(!map.contains_key("C"));
}

#[test]
fn equal_maps_hold_equal_entries_in_order() {
    let mut one: ParamMap<u8> = ParamMap::new();
    one.insert("a".to_string(), 1);
    one.insert("b".to_string(), 2);
    let mut two: ParamMap<u8> = ParamMap::new();
    two.insert("a".to_string(), 1);
    two.insert("b".to_string(), 2);
    assert_eq!(one, two);
    let mut three: ParamMap<u8> = ParamMap::new();
    three.insert("b".to_string(), 2);
    three.insert("a".to_string(), 1);
    assert_ne!(one, three);
}

#[test]
fn remove_closes_the_gap() {
    let mut map: ParamMap<u8> = ParamMap::new();
    map.insert("a".to_string(), 1);
    map.insert("b".to_string(), 2);
    map.insert("c".to_string(), 3);
    assert_eq!(map.remove("x"), None);
    assert_eq!(map.len(), 3);
    assert_eq!(map.remove("b"), Some(2));
    assert_eq!(map.len(), 2);
    assert_eq!(map.get_index(0), Some((&"a".to_string(), &1)));
    assert_eq!(map.get_index(1), Some((&"c".to_string(), &3)));
    assert!(!map.contains_key("b"));
    assert_eq!(map.remove("b"), None);
    assert_eq!(map.insert("b".to_string(), 4), None);
    assert_eq!(map.get_index(2), Some((&"b".to_string(), &4)));
    assert_eq!(map.remove("a"), Some(1));
    assert_eq!(map.remove("c"), Some(3));
    assert_eq!(map.remove("b"), Some(4));
    assert!(map.is_empty());
}
