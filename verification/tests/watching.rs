//! Watching values and collections.
use watchable_rs::{
    Join, Pair, Watchable, WatchableAtomic, WatchableFast, WatchableLite, WatchableMap,
    WatchableVec, Watcher,
};

#[test]
fn test_watchable_basic() {
    let w = Watchable::new(42);
    assert_eq!(w.get(), 42);

    w.set(100);
    assert_eq!(w.get(), 100);
}

#[test]
fn test_watcher_trait() {
    let w = Watchable::new(42);
    let mut watcher = w.watch();

    assert_eq!(watcher.get(), 42);
    assert!(!watcher.has_changed());

    w.set(100);
    assert!(watcher.has_changed());
    assert_eq!(watcher.get(), 100);
    assert!(!watcher.has_changed());
}

#[test]
fn test_watcher_map() {
    let w = Watchable::new(10);
    let mut mapped = w.watch().map(|v| v * 2);

    assert_eq!(mapped.get(), 20);

    w.set(25);
    assert!(mapped.update());
    assert_eq!(mapped.peek(), &50);
}

#[test]
fn test_watcher_and() {
    let a = Watchable::new(1);
    let b = Watchable::new("hello".to_string());

    let mut combined = a.watch().and(b.watch());
    assert_eq!(combined.get(), (1, "hello".to_string()));

    a.set(2);
    assert!(combined.update());
    assert_eq!(combined.peek(), &(2, "hello".to_string()));
}

#[test]
fn test_watcher_join() {
    let watchables: Vec<_> = (0..3).map(Watchable::new).collect();
    let mut joined = Join::new(watchables.iter().map(|w| w.watch()));

    assert_eq!(joined.get(), vec![0, 1, 2]);

    watchables[1].set(10);
    assert!(joined.update());
    assert_eq!(joined.peek(), &vec![0, 10, 2]);
}

#[test]
fn test_set_if_changed() {
    let w = Watchable::new(42);
    let watcher = w.watch();

    assert!(w.set_if_changed(100).is_ok());
    assert!(watcher.has_changed());

    assert!(w.set_if_changed(100).is_err());
}

#[test]
fn test_watchable_lite() {
    let w = WatchableLite::new(42);
    let mut watcher = w.watch();

    assert_eq!(watcher.get(), 42);
    assert!(!watcher.has_changed());

    w.set(100);
    assert!(watcher.has_changed());
    assert!(watcher.update());
    assert_eq!(watcher.peek(), &100);
}

#[test]
fn test_watchable_atomic() {
    let w = WatchableAtomic::new(42i32);
    let mut watcher = w.watch();

    assert_eq!(*watcher.peek(), 42);

    w.set(100);
    assert!(watcher.update());
    assert_eq!(*watcher.peek(), 100);
}

#[test]
fn test_watchable_fast() {
    let w = WatchableFast::new(42);
    let mut watcher = w.watch();

    assert_eq!(watcher.get(), 42);

    w.set(100);
    assert!(watcher.has_changed());
    assert_eq!(watcher.get(), 100);
}

#[test]
fn test_watchable_map_collection() {
    let map = WatchableMap::<String, i32>::new();
    let mut watcher = map.watch_changes();

    map.insert("a".into(), 1);
    map.insert("b".into(), 2);

    let (changes, missed) = watcher.poll_changes().unwrap();
    assert!(!missed);
    assert_eq!(changes.len(), 2);
}

#[test]
fn test_watchable_vec_collection() {
    let vec = WatchableVec::<i32>::new();
    vec.push(1);
    vec.push(2);
    vec.push(3);

    assert_eq!(vec.len(), 3);
    assert_eq!(vec.get(1), Some(2));
}

#[test]
fn test_disconnection() {
    let w = Watchable::new(42);
    let watcher = w.watch();

    assert!(watcher.is_connected());
    drop(w);
    assert!(!watcher.is_connected());
}
