//! The collections, with and without a history.
use std::collections::HashMap;
use std::sync::Arc;

use watchable_rs::lite_map::{store_entry, take_entry};
use watchable_rs::lite_vec::{empty_out, put_at, put_in, put_last, take_last, take_out};
use watchable_rs::map::{
    clear_entries, count_entries, get_entry, has_entry, insert_entry, lacks_entries, remove_entry,
};
use watchable_rs::vec::{
    clear_values, count_elements, get_cloned, insert_value, lacks_elements, pop_value, push_value,
    remove_value, replace_element,
};
use watchable_rs::{
    InsertArc, MapChange, PushArc, VecChange, WatchableMap, WatchableMapArc, WatchableMapLite,
    WatchableVec, WatchableVecArc, WatchableVecLite,
};

#[test]
fn vec_operations_tell_what_they_did() {
    let mut data = vec![1, 2];
    assert_eq!(push_value(&mut data, 3), VecChange::Push { value: 3 });
    assert_eq!(insert_value(&mut data, (0, 0)), Ok(VecChange::Insert { index: 0, value: 0 }));
    assert_eq!(insert_value(&mut data, (4, 4)), Ok(VecChange::Insert { index: 4, value: 4 }));
    assert_eq!(insert_value(&mut data, (6, 9)), Err(9));
    assert_eq!(replace_element(&mut data, (1, 7)), Ok(VecChange::Replace { index: 1, value: 7 }));
    assert_eq!(replace_element(&mut data, (5, 9)), Err(9));
    assert_eq!(data, vec![0, 7, 2, 3, 4]);
    assert_eq!(remove_value(&mut data, 2), (Some(2), Some(VecChange::Remove { index: 2 })));
    assert_eq!(remove_value(&mut data, 4), (None, None));
    assert_eq!(pop_value(&mut data, ()), (Some(4), Some(VecChange::Pop)));
    assert_eq!(get_cloned(&data, 1), Some(7));
    assert_eq!(get_cloned(&data, 3), None);
    assert_eq!(clear_values(&mut data, ()), Some(VecChange::Clear));
    assert_eq!(clear_values(&mut data, ()), None);
    assert_eq!(pop_value(&mut data, ()), (None, None));
}

#[test]
fn map_operations_tell_what_they_did() {
    let mut data = HashMap::new();
    let change = MapChange::Insert { key: 1, value: 'a' };
    assert_eq!(insert_entry(&mut data, (1, 'a')), (None, change));
    let change = MapChange::Insert { key: 1, value: 'b' };
    assert_eq!(insert_entry(&mut data, (1, 'b')), (Some('a'), change));
    assert_eq!(get_entry(&data, &1), Some('b'));
    assert_eq!(get_entry(&data, &2), None);
    assert_eq!(remove_entry(&mut data, &2), (None, None));
    assert_eq!(remove_entry(&mut data, &1), (Some('b'), Some(MapChange::Remove { key: 1 })));
    assert_eq!(clear_entries(&mut data, ()), None);
    insert_entry(&mut data, (3, 'c'));
    assert_eq!(clear_entries(&mut data, ()), Some(MapChange::Clear));
    assert!(data.is_empty());
}

#[test]
fn lite_operations_on_elements() {
    let mut data = vec![1, 2];
    assert_eq!(put_in(&mut data, (2, 3)), Ok(()));
    assert_eq!(put_in(&mut data, (4, 9)), Err(9));
    assert_eq!(put_at(&mut data, (0, 7)), Ok(()));
    assert_eq!(put_at(&mut data, (3, 9)), Err(9));
    assert_eq!(take_out(&mut data, 1), Some(2));
    assert_eq!(take_out(&mut data, 2), None);
    assert_eq!(data, vec![7, 3]);
    put_last(&mut data, 8);
    assert_eq!(count_elements(&data, ()), 3);
    assert_eq!(take_last(&mut data, ()), Some(8));
    assert!(!lacks_elements(&data, ()));
    assert!(empty_out(&mut data, ()));
    assert!(!empty_out(&mut data, ()));
    assert!(lacks_elements(&data, ()));
    assert_eq!(take_last(&mut data, ()), None);
}

#[test]
fn lite_operations_on_entries() {
    let mut data = HashMap::new();
    assert!(lacks_entries(&data, ()));
    assert_eq!(store_entry(&mut data, (1, 'a')), None);
    assert_eq!(store_entry(&mut data, (1, 'b')), Some('a'));
    assert!(has_entry(&data, &1));
    assert!(!has_entry(&data, &2));
    assert_eq!(count_entries(&data, ()), 1);
    assert_eq!(take_entry(&mut data, &2), None);
    assert_eq!(take_entry(&mut data, &1), Some('b'));
    assert!(lacks_entries(&data, ()));
}

#[test]
fn vec_handles_share_the_elements() {
    let vec = WatchableVec::<String>::default();
    let other = vec.clone();
    assert!(vec.is_empty());
    other.push("a".into());
    other.push("b".into());
    assert_eq!(vec.len(), 2);
    assert_eq!(vec.get(0), Some("a".to_string()));
    assert_eq!(vec.get(2), None);
    assert_eq!(vec.set(1, "c".into()), Ok(()));
    assert_eq!(vec.set(2, "d".into()), Err("d".to_string()));
    assert_eq!(vec.insert(3, "e".into()), Err("e".to_string()));
    assert_eq!(vec.remove(2), None);
    assert_eq!(vec.read(|elements| elements.join("")), "ac");
    assert_eq!(vec.pop(), Some("c".to_string()));
    vec.clear();
    assert_eq!(vec.pop(), None);
    assert!(!vec.has_watchers());
    let _watcher = vec.watch_changes();
    assert!(vec.has_watchers());
}

#[test]
fn first_and_last_positions() {
    let vec = WatchableVec::new();
    let lite = WatchableVecLite::new();
    for value in 0..3 {
        assert_eq!(vec.insert(0, value), Ok(()));
        assert_eq!(lite.insert(0, value), Ok(()));
        assert_eq!(vec.insert(usize::MAX, value), Err(value));
        assert_eq!(lite.insert(usize::MAX, value), Err(value));
        assert_eq!(vec.set(usize::MAX, value), Err(value));
        assert_eq!(lite.set(usize::MAX, value), Err(value));
    }
    assert_eq!(vec.snapshot(), vec![2, 1, 0]);
    assert_eq!(lite.snapshot(), vec![2, 1, 0]);
}

#[test]
fn refused_operations_are_no_changes() {
    let vec = WatchableVec::<i32>::new();
    let mut watcher = vec.watch_changes();
    vec.clear();
    assert_eq!(vec.pop(), None);
    assert_eq!(vec.remove(0), None);
    assert!(vec.set(0, 1).is_err());
    assert!(vec.insert(1, 1).is_err());
    assert!(watcher.poll_changes().is_none());

    let map = WatchableMap::<i32, i32>::new();
    let mut watcher = map.watch_changes();
    map.clear();
    assert_eq!(map.remove(&1), None);
    assert!(watcher.poll_changes().is_none());
}

#[test]
fn map_handles_share_the_entries() {
    let map = WatchableMap::<String, i32>::default();
    let other = map.clone();
    assert!(map.is_empty());
    assert_eq!(other.insert("x".into(), 10), None);
    assert_eq!(other.insert("x".into(), 20), Some(10));
    assert_eq!(map.len(), 1);
    assert!(map.contains_key(&"x".into()));
    assert!(!map.contains_key(&"y".into()));
    assert_eq!(map.get(&"x".into()), Some(20));
    assert_eq!(map.get(&"y".into()), None);
    assert_eq!(map.read(|entries| entries.len()), 1);
    assert_eq!(map.snapshot(), HashMap::from([("x".to_string(), 20)]));
    assert_eq!(map.remove(&"x".into()), Some(20));
    map.insert("z".into(), 1);
    map.clear();
    assert!(map.is_empty());
    assert!(!map.has_watchers());
    let _watcher = map.watch_changes();
    assert!(map.has_watchers());
}

#[test]
fn lite_vec_tells_that_it_changed() {
    let lite = WatchableVecLite::<i32>::new();
    let mut epoch = lite.watch();
    assert!(!epoch.has_changed());
    lite.push(1);
    lite.push(2);
    lite.push(3);
    assert!(epoch.has_changed());
    assert_eq!(lite.snapshot(), vec![1, 2, 3]);
    assert_eq!(epoch.poll_changed(), Some(true));
    assert_eq!(epoch.poll_changed(), Some(false));

    assert_eq!(lite.get(1), Some(2));
    assert_eq!(lite.len(), 3);
    assert_eq!(lite.read(|elements| elements.len()), 3);
    assert_eq!(epoch.poll_changed(), Some(false));

    assert_eq!(lite.insert(0, 0), Ok(()));
    assert_eq!(epoch.poll_changed(), Some(true));
    assert_eq!(lite.set(0, 5), Ok(()));
    assert_eq!(epoch.poll_changed(), Some(true));
    assert_eq!(lite.remove(0), Some(5));
    assert_eq!(epoch.poll_changed(), Some(true));
    assert_eq!(lite.pop(), Some(3));
    assert_eq!(epoch.poll_changed(), Some(true));
    lite.clear();
    assert_eq!(epoch.poll_changed(), Some(true));

    lite.clear();
    assert_eq!(lite.pop(), None);
    assert_eq!(lite.remove(0), None);
    assert_eq!(lite.set(0, 1), Err(1));
    assert_eq!(lite.insert(1, 1), Err(1));
    assert!(lite.is_empty());
    assert_eq!(lite.get(0), None);
    assert_eq!(epoch.poll_changed(), Some(false));
}

#[test]
fn lite_map_tells_that_it_changed() {
    let lite = WatchableMapLite::<&str, i32>::default();
    let mut epoch = lite.clone().watch();
    assert_eq!(lite.insert("a", 1), None);
    assert_eq!(lite.insert("a", 2), Some(1));
    assert_eq!(epoch.poll_changed(), Some(true));
    assert_eq!(lite.get(&"a"), Some(2));
    assert!(lite.contains_key(&"a"));
    assert_eq!(lite.len(), 1);
    assert!(!lite.is_empty());
    assert_eq!(lite.snapshot(), HashMap::from([("a", 2)]));
    assert_eq!(lite.read(|entries| entries.len()), 1);
    assert_eq!(epoch.poll_changed(), Some(false));
    assert_eq!(lite.remove(&"a"), Some(2));
    assert_eq!(epoch.poll_changed(), Some(true));
    assert_eq!(lite.remove(&"a"), None);
    lite.clear();
    assert_eq!(epoch.poll_changed(), Some(false));
    lite.insert("b", 3);
    lite.clear();
    assert_eq!(epoch.poll_changed(), Some(true));
    assert!(lite.is_empty());
}

#[test]
fn epoch_watcher_notices_that_its_source_is_gone() {
    let lite = WatchableVecLite::default();
    let mut epoch = lite.watch();
    let twin = epoch.clone();
    lite.push(1);
    epoch.reset();
    assert!(!epoch.has_changed());
    assert!(twin.has_changed());
    assert!(epoch.is_connected());
    drop(lite);
    assert!(!epoch.is_connected());
    assert!(!twin.has_changed());
    assert_eq!(epoch.poll_changed(), None);
    epoch.reset();
}

#[test]
fn arcs_are_shared_with_the_watchers() {
    let vec = WatchableVecArc::new();
    let mut watcher = vec.watch_changes();
    vec.push_arc(String::from("large"));
    let (changes, _) = watcher.poll_changes().unwrap();
    match &changes[0] {
        VecChange::Push { value } => assert!(Arc::ptr_eq(value, &vec.get(0).unwrap())),
        other => panic!("{other:?} is no push"),
    }

    let map = WatchableMapArc::new();
    assert_eq!(map.insert_arc(1, "a"), None);
    assert_eq!(map.insert_arc(1, "b"), Some(Arc::new("a")));
    assert_eq!(map.get(&1), Some(Arc::new("b")));
}
