use device_hub::string_index::StringIndex;
use device_hub::string_map::StringMap;
use device_hub::string_set::StringSet;

fn k(text: &str) -> String {
    text.to_string()
}

#[test]
fn set_holds_each_member_once() {
    let mut set = StringSet::new();
    assert!(set.is_empty());
    assert!(set.insert(k("a")));
    assert!(set.insert(k("b")));
    assert!(!set.insert(k("a")));
    assert_eq!(set.len(), 2);
    assert!(set.contains(&k("a")));
    assert!(!set.contains(&k("c")));
    assert!(set.remove(&k("a")));
    assert!(!set.remove(&k("a")));
    assert_eq!(set.members(), &vec![k("b")]);
    assert_eq!(set.into_vec(), vec![k("b")]);
}

#[test]
fn map_replaces_and_removes() {
    let mut map: StringMap<u32> = StringMap::new();
    assert_eq!(map.len(), 0);
    map.insert(k("a"), 1);
    map.insert(k("b"), 2);
    map.insert(k("a"), 3);
    assert_eq!(map.len(), 2);
    assert_eq!(map.get(&k("a")), Some(&3));
    assert_eq!(map.get(&k("z")), None);
    assert!(map.contains_key(&k("b")));
    assert_eq!(map.remove(&k("a")), Some(3));
    assert_eq!(map.remove(&k("a")), None);
    assert_eq!(map.keys(), vec![k("b")]);
}

#[test]
fn index_groups_members_under_keys() {
    let mut index = StringIndex::new();
    index.add(&k("t1"), k("d1"));
    index.add(&k("t1"), k("d2"));
    index.add(&k("t1"), k("d1"));
    index.add(&k("t2"), k("d1"));
    assert!(index.contains(&k("t1"), &k("d2")));
    assert!(!index.contains(&k("t2"), &k("d2")));
    assert!(!index.contains(&k("t3"), &k("d1")));
    assert_eq!(index.group(&k("t1")).unwrap().len(), 2);
    assert!(index.group(&k("t3")).is_none());
    let built = StringIndex::from_pairs(&vec![(k("t1"), k("u1")), (k("t1"), k("u1")), (k("t2"), k("u2"))]);
    assert_eq!(built.group(&k("t1")).unwrap().len(), 1);
    assert!(built.contains(&k("t2"), &k("u2")));
}
