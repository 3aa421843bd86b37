//! Watchers made of other watchers.
use std::cell::Cell;
use std::rc::Rc;

use watchable_rs::{Join, Pair, Watchable, WatchableFast, WatchableLite, Watcher};

#[test]
fn mapped_value_changes_only_to_another_value() {
    let w = Watchable::new(3);
    let mut parity = w.watch().map(|v| v % 2);
    assert_eq!(parity.get(), 1);
    w.set(5);
    assert!(!parity.has_changed());
    assert!(!parity.update());
    assert_eq!(parity.peek(), &1);
    assert!(!parity.has_changed());
    w.set(6);
    assert!(parity.has_changed());
    assert!(parity.update());
    assert_eq!(parity.peek(), &0);
    assert!(parity.is_connected());
    drop(w);
    assert!(!parity.is_connected());
    assert!(!parity.update());
    assert_eq!(parity.get(), 0);
}

#[test]
fn pending_change_is_one_of_the_mapped_value() {
    let w = Watchable::new(10);
    let mut tens = w.watch().map(|v| v / 10);
    w.set(11);
    assert!(!tens.has_changed());
    w.set(25);
    assert!(tens.has_changed());
    assert_eq!(tens.peek(), &1);
    w.set(19);
    assert!(!tens.has_changed());
    assert!(!tens.update());
    w.set(20);
    assert!(tens.has_changed());
    assert_eq!(tens.get(), 2);
    assert!(!tens.has_changed());
    w.set(30);
    drop(w);
    assert!(!tens.has_changed());
    assert_eq!(tens.get(), 2);
}

#[test]
fn stacked_watchers_agree_on_what_is_pending() {
    let a = Watchable::new(1);
    let b = WatchableFast::new(2);
    let mut small = a.watch().and(b.watch()).map(|(a, b)| a + b).map(|sum| *sum < 10);
    a.set(5);
    assert!(!small.has_changed());
    assert!(!small.update());
    b.set(6);
    assert!(small.has_changed());
    assert!(small.clone().update());
    assert!(small.update());
    assert_eq!(small.peek(), &false);
    assert!(!small.has_changed());
}

#[test]
fn watchers_settle_with_one_update() {
    let w = Watchable::new(1);
    let lite = WatchableLite::new(1);
    let mut doubled = w.watch().map(|v| v * 2);
    let mut both = w.watch().and(lite.watch());
    let mut joined = Join::new((0..3).map(|_| w.watch()));
    w.set(2);
    w.set(3);
    lite.set(4);
    assert!(doubled.has_changed() && both.has_changed() && joined.has_changed());
    assert!(doubled.update() && both.update() && joined.update());
    assert_eq!((doubled.peek(), both.peek(), joined.peek()), (&6, &(3, 4), &vec![3, 3, 3]));
    assert!(!doubled.has_changed() && !both.has_changed() && !joined.has_changed());
    assert!(!doubled.update() && !both.update() && !joined.update());
    assert_eq!((doubled.get(), both.get(), joined.get()), (6, (3, 4), vec![3, 3, 3]));
    drop(w);
    assert!(!doubled.update() && !joined.update());
    assert_eq!((doubled.get(), joined.get()), (6, vec![3, 3, 3]));
}

#[test]
fn function_is_called_once_per_change() {
    let calls = Rc::new(Cell::new(0));
    let w = Watchable::new(1);
    let seen = calls.clone();
    let mut mapped = w.watch().map(move |v| {
        seen.set(seen.get() + 1);
        v + 1
    });
    assert_eq!(calls.get(), 1);
    mapped.update();
    mapped.update();
    assert_eq!(calls.get(), 1);
    w.set(2);
    w.set(3);
    mapped.update();
    assert_eq!(calls.get(), 2);
    assert_eq!(mapped.clone().peek(), &4);
}

#[test]
fn maps_can_be_stacked() {
    let w = Watchable::new(2);
    let mut text = w.watch().map(|v| v * 10).map(|v| v.to_string());
    assert_eq!(text.get(), "20");
    w.set(3);
    assert_eq!(text.get(), "30");
}

#[test]
fn pair_follows_both_sides() {
    let a = Watchable::new(1);
    let b = WatchableFast::new('x');
    a.set(2);
    let mut both = a.watch().and(b.watch());
    assert_eq!(both.peek(), &(2, 'x'));
    assert!(!both.has_changed());
    assert!(!both.update());
    b.set('y');
    assert!(both.has_changed());
    assert!(both.update());
    assert_eq!(both.peek(), &(2, 'y'));
    a.set(3);
    b.set('z');
    assert_eq!(both.clone().get(), (3, 'z'));
    assert_eq!(both.get(), (3, 'z'));
    assert!(both.is_connected());
    drop(b);
    assert!(!both.is_connected());
    a.set(4);
    assert_eq!(both.get(), (4, 'z'));
}

#[test]
fn pair_is_up_to_date_from_the_start() {
    let a = Watchable::new(1);
    let b = WatchableLite::new(1);
    let (watch_a, watch_b) = (a.watch(), b.watch());
    a.set(2);
    b.set(2);
    let both = watch_a.and(watch_b);
    assert_eq!(both.peek(), &(2, 2));
    assert!(!both.has_changed());
}

#[test]
fn join_keeps_each_value_in_its_place() {
    let sensors: Vec<_> = (0..4).map(|i| Watchable::new(i as f64 * 1.5)).collect();
    let mut readings = Join::new(sensors.iter().map(|s| s.watch()));
    assert_eq!(readings.get(), vec![0.0, 1.5, 3.0, 4.5]);
    assert!(!readings.has_changed());

    sensors[2].set(99.9);
    assert!(readings.has_changed());
    assert!(readings.clone().update());
    assert!(readings.update());
    assert_eq!(readings.peek(), &vec![0.0, 1.5, 99.9, 4.5]);
    assert!(!readings.update());
}

#[test]
fn join_is_connected_while_all_are() {
    let mut watchables: Vec<_> = (0..3).map(Watchable::new).collect();
    let joined = Join::new(watchables.iter().map(|w| w.watch()));
    assert!(joined.is_connected());
    watchables.pop();
    assert!(!joined.is_connected());
}

#[test]
fn empty_join_never_changes() {
    let mut joined = Join::new(Vec::<watchable_rs::Direct<i32>>::new().into_iter());
    assert!(joined.is_connected());
    assert!(!joined.has_changed());
    assert!(!joined.update());
    assert_eq!(joined.get(), Vec::<i32>::new());
}
