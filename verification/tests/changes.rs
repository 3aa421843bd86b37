//! Logs of changes, and what watchers make of them.
use std::sync::atomic::{AtomicUsize, Ordering};
use std::sync::Arc;
use std::task::{Wake, Waker};

use watchable_rs::change_watcher::take_in;
use watchable_rs::history_value::{modify_value, replace_value};
use watchable_rs::log::{ChangeLog, Collected};
use watchable_rs::notifier::Notifier;
use watchable_rs::{
    MapChange, ValueChange, VecChange, WatchableMap, WatchableVec, WatchableWithHistory,
};

struct Count(AtomicUsize);

impl Wake for Count {
    fn wake(self: Arc<Self>) {
        self.0.fetch_add(1, Ordering::SeqCst);
    }
}

fn counter() -> (Arc<Count>, Waker) {
    let count = Arc::new(Count(AtomicUsize::new(0)));
    (count.clone(), Waker::from(count))
}

fn filled(capacity: usize, changes: std::ops::Range<i32>) -> ChangeLog<i32> {
    let mut log = ChangeLog::new(capacity);
    for change in changes {
        log.record(change);
    }
    log
}

#[test]
fn empty_queue_gives_nothing() {
    let mut log = ChangeLog::<i32>::new(1);
    let (dropped, aftermath) = log.restart(5);
    assert!(dropped.is_empty());
    assert_eq!(aftermath.rejected, None);
    assert_eq!(log.collect(1).changes, vec![5]);
    assert!(log.collect(2).changes.is_empty());
}

#[test]
fn queue_has_room_for_its_capacity() {
    for capacity in 1..6 {
        let mut log = filled(capacity, 0..capacity as i32);
        let aftermath = log.record(99);
        assert_eq!(aftermath.rejected, Some(99));
        assert_eq!(aftermath.evicted, Some(0));
        assert_eq!(log.collect(1).changes.len(), capacity - 1);
    }
}

#[test]
fn watcher_collects_all_in_order() {
    let mut log = filled(4, 0..4);
    assert_eq!(log.epoch(), 5);
    let collected = log.collect(1);
    assert_eq!(collected.changes, vec![0, 1, 2, 3]);
    assert_eq!(collected.epoch, 5);
    assert!(!collected.missed);
}

#[test]
fn full_log_gives_up_two_changes() {
    let mut log = filled(2, 0..2);
    let aftermath = log.record(2);
    assert_eq!(aftermath.rejected, Some(2));
    assert_eq!(aftermath.evicted, Some(0));
    let aftermath = log.record(3);
    assert_eq!(aftermath.rejected, None);
    assert_eq!(aftermath.evicted, None);
    let collected = log.collect(1);
    assert_eq!(collected.changes, vec![1, 3]);
    assert!(collected.missed);
}

#[test]
fn missed_means_more_than_capacity() {
    for count in 0..8 {
        let collected = filled(3, 0..count).collect(1);
        assert_eq!(collected.missed, count > 3);
    }
}

#[test]
fn log_keeps_order() {
    let collected = filled(5, 0..23).collect(1);
    assert!(collected.changes.windows(2).all(|pair| pair[0] < pair[1]));
    assert!(collected.changes.len() <= 5);
}

#[test]
fn news_exactly_when_behind() {
    for since in 0..6 {
        let collected = filled(10, 0..3).collect(since);
        let is_news = !collected.changes.is_empty() || collected.missed;
        assert_eq!(is_news, since < 4);
    }
}

#[test]
fn collecting_catches_up() {
    let mut log = filled(10, 0..3);
    let collected = log.collect(2);
    assert_eq!(collected.changes, vec![0, 1, 2]);
    let again = log.collect(collected.epoch);
    assert!(again.changes.is_empty());
    assert!(!again.missed);
}

#[test]
fn others_miss_what_one_collects() {
    let mut log = filled(10, 0..3);
    assert_eq!(log.collect(1).changes.len(), 3);
    let other = log.collect(1);
    assert!(other.changes.is_empty());
    assert!(other.missed);
}

#[test]
fn change_wakes_waiting_tasks() {
    let (count, waker) = counter();
    let mut log = ChangeLog::new(2);
    assert_eq!(log.record(0).woken.len(), 0);
    log.register(waker.clone());
    log.register(waker);
    let woken = log.record(1).woken;
    assert_eq!(woken.len(), 2);
    for waker in woken {
        waker.wake();
    }
    assert_eq!(count.0.load(Ordering::SeqCst), 2);
    assert_eq!(log.record(2).woken.len(), 0);
}

#[test]
fn no_recorded_change_goes_unnoticed() {
    // A change before the task waits is found by the second look.
    let (_, waker) = counter();
    let mut log = filled(3, 0..2);
    let since = log.collect(1).epoch;
    log.record(2);
    log.register(waker.clone());
    assert_eq!(log.collect(since).changes, vec![2]);

    // A change after that wakes the task.
    let mut log = filled(3, 0..2);
    let since = log.collect(1).epoch;
    log.register(waker.clone());
    assert!(log.collect(since).changes.is_empty());
    log.register(waker);
    assert_eq!(log.record(2).woken.len(), 2);
}

#[test]
fn log_stays_within_its_capacity() {
    let mut log = ChangeLog::new(3);
    for step in 0..50u64 {
        match step % 7 {
            0 => drop(log.restart(step)),
            4 => assert!(log.collect(step).changes.len() <= 3),
            _ => drop(log.record(step)),
        }
    }
    assert!(log.collect(0).changes.len() <= 3);
}

#[test]
fn restarted_log_holds_one_change() {
    let (_, waker) = counter();
    let mut log = filled(3, 0..3);
    log.register(waker);
    let (dropped, aftermath) = log.restart(9);
    assert_eq!(dropped, vec![0, 1, 2]);
    assert_eq!(aftermath.woken.len(), 1);
    assert!(aftermath.rejected.is_none() && aftermath.evicted.is_none());
    let collected = log.collect(1);
    assert_eq!(collected.changes, vec![9]);
    assert!(collected.missed);
}

#[test]
fn watcher_takes_in_only_news() {
    let mut last = 3;
    let nothing = Collected { changes: Vec::<i32>::new(), epoch: 3, missed: false };
    assert_eq!(take_in(&mut last, nothing), None);
    assert_eq!(last, 3);
    let missed = Collected { changes: Vec::<i32>::new(), epoch: 5, missed: true };
    assert_eq!(take_in(&mut last, missed), Some((vec![], true)));
    assert_eq!(last, 5);
    let news = Collected { changes: vec![1], epoch: 6, missed: false };
    assert_eq!(take_in(&mut last, news), Some((vec![1], false)));
    assert_eq!(last, 6);
}

#[test]
fn notification_wakes_all() {
    let (count, waker) = counter();
    let mut notifier = Notifier::new();
    assert_eq!(notifier.epoch(), 1);
    assert!(notifier.notify().is_empty());
    notifier.register(waker.clone());
    notifier.register(waker);
    for waker in notifier.notify() {
        waker.wake();
    }
    assert_eq!(count.0.load(Ordering::SeqCst), 2);
    assert!(notifier.notify().is_empty());
    assert_eq!(notifier.epoch(), 4);
}

#[test]
fn each_wait_is_woken_once() {
    let (one, one_waker) = counter();
    let (other, other_waker) = counter();
    let mut notifier = Notifier::new();
    notifier.register(one_waker.clone());
    notifier.register(other_waker);
    for waker in notifier.notify() {
        waker.wake();
    }
    assert_eq!(one.0.load(Ordering::SeqCst), 1);
    assert_eq!(other.0.load(Ordering::SeqCst), 1);
    assert!(notifier.notify().is_empty());
    notifier.register(one_waker);
    for waker in notifier.notify() {
        waker.wake();
    }
    assert_eq!(one.0.load(Ordering::SeqCst), 2);
    assert_eq!(other.0.load(Ordering::SeqCst), 1);
}

#[test]
fn joined_task_is_woken() {
    let (_, waker) = counter();
    let mut notifier = Notifier::new();
    notifier.register(waker.clone());
    assert_eq!(notifier.notify().len(), 1);
    assert!(notifier.notify().is_empty());
    assert!(notifier.notify().is_empty());
    notifier.register(waker);
    assert_eq!(notifier.notify().len(), 1);
}

fn replay_vec(mut elements: Vec<i32>, changes: Vec<VecChange<i32>>) -> Vec<i32> {
    for change in changes {
        match change {
            VecChange::Push { value } => elements.push(value),
            VecChange::Pop => {
                elements.pop();
            }
            VecChange::Insert { index, value } => elements.insert(index, value),
            VecChange::Remove { index } => {
                elements.remove(index);
            }
            VecChange::Replace { index, value } => elements[index] = value,
            VecChange::Clear => elements.clear(),
        }
    }
    elements
}

#[test]
fn watcher_rebuilds_vec() {
    let vec = WatchableVec::new();
    vec.push(1);
    vec.push(2);
    let known = vec.snapshot();
    let mut watcher = vec.watch_changes();
    assert!(watcher.poll_changes().is_none());
    vec.push(3);
    assert_eq!(vec.insert(1, 7), Ok(()));
    assert_eq!(vec.remove(0), Some(1));
    assert_eq!(vec.set(2, 8), Ok(()));
    assert_eq!(vec.pop(), Some(8));
    vec.push(9);
    let (changes, missed) = watcher.poll_changes().unwrap();
    assert!(missed == false);
    assert_eq!(changes.len(), 8);
    assert_eq!(changes[..2], [VecChange::Push { value: 1 }, VecChange::Push { value: 2 }]);
    assert_eq!(replay_vec(known, changes[2..].to_vec()), vec.snapshot());
    assert_eq!(vec.snapshot(), vec![7, 2, 9]);
}

#[test]
fn vec_changes_replay() {
    let vec = WatchableVec::new();
    let mut watcher = vec.watch_changes();
    for value in 0..5 {
        vec.push(value);
    }
    vec.remove(2);
    let (changes, missed) = watcher.poll_changes().unwrap();
    assert!(!missed);
    assert_eq!(changes[5], VecChange::Remove { index: 2 });
    assert_eq!(replay_vec(Vec::new(), changes), vec![0, 1, 3, 4]);
}

#[test]
fn clear_restarts_vec_history() {
    let vec = WatchableVec::with_capacity(4);
    let mut watcher = vec.watch_changes();
    for value in 0..9 {
        vec.push(value);
    }
    vec.clear();
    vec.push(5);
    let (changes, missed) = watcher.poll_changes().unwrap();
    assert!(missed);
    assert_eq!(changes, vec![VecChange::Clear, VecChange::Push { value: 5 }]);
    assert_eq!(replay_vec(vec![77, 88], changes), vec.snapshot());
}

fn replay_map(
    mut map: std::collections::HashMap<u8, i32>,
    changes: Vec<MapChange<u8, i32>>,
) -> std::collections::HashMap<u8, i32> {
    for change in changes {
        match change {
            MapChange::Insert { key, value } => {
                map.insert(key, value);
            }
            MapChange::Remove { key } => {
                map.remove(&key);
            }
            MapChange::Clear => map.clear(),
        }
    }
    map
}

#[test]
fn map_changes_replay() {
    let map = WatchableMap::new();
    let mut watcher = map.watch_changes();
    map.insert(1, 10);
    map.insert(2, 20);
    map.insert(1, 11);
    map.remove(&2);
    let (changes, missed) = watcher.poll_changes().unwrap();
    assert!(!missed);
    assert_eq!(
        changes,
        vec![
            MapChange::Insert { key: 1, value: 10 },
            MapChange::Insert { key: 2, value: 20 },
            MapChange::Insert { key: 1, value: 11 },
            MapChange::Remove { key: 2 },
        ]
    );
    assert_eq!(replay_map(Default::default(), changes), map.snapshot());
}

#[test]
fn watcher_rebuilds_map() {
    let map = WatchableMap::new();
    let mut watcher = map.watch_changes();
    map.insert(1, 10);
    assert!(watcher.poll_changes().is_some());
    let known = map.snapshot();
    map.insert(2, 20);
    map.remove(&1);
    let (changes, missed) = watcher.poll_changes().unwrap();
    assert!(!missed);
    assert_eq!(replay_map(known, changes), map.snapshot());
}

#[test]
fn clear_restarts_map_history() {
    let map = WatchableMap::with_capacity(3);
    let mut watcher = map.watch_changes();
    for key in 0..8 {
        map.insert(key, 1);
    }
    map.clear();
    map.insert(9, 9);
    let (changes, missed) = watcher.poll_changes().unwrap();
    assert!(missed);
    assert_eq!(changes, vec![MapChange::Clear, MapChange::Insert { key: 9, value: 9 }]);
    assert_eq!(replay_map([(4, 4)].into(), changes), map.snapshot());
}

#[test]
fn collected_is_complete_unless_missed() {
    let mut log = filled(3, 0..0);
    assert!(!log.collect(1).missed);
    log.record(1);
    log.record(2);
    let collected = log.collect(1);
    assert_eq!((collected.changes, collected.missed), (vec![1, 2], false));
    log.record(3);
    log.restart(4);
    let collected = log.collect(3);
    assert_eq!((collected.changes, collected.missed), (vec![4], true));
    log.restart(5);
    log.record(6);
    let collected = log.collect(5);
    assert_eq!((collected.changes, collected.missed), (vec![5, 6], false));
}

#[test]
fn changes_from_before_come_first() {
    let vec = WatchableVec::new();
    vec.push(1);
    let mut watcher = vec.watch_changes();
    assert!(watcher.poll_changes().is_none());
    vec.push(2);
    let all = vec![VecChange::Push { value: 1 }, VecChange::Push { value: 2 }];
    assert_eq!(watcher.poll_changes(), Some((all, false)));
}

#[test]
fn map_batch_replays_unless_missed() {
    let map = WatchableMap::<u8, i32>::with_capacity(3);
    let mut watcher = map.watch_changes();
    let mut known = std::collections::HashMap::new();
    for round in 0..30u8 {
        match round % 4 {
            0 | 1 => {
                map.insert(round % 5, i32::from(round));
            }
            2 => {
                map.remove(&(round % 5));
            }
            _ => {
                if round % 3 == 0 {
                    map.clear();
                }
            }
        }
        if round % 2 == 0 {
            match watcher.poll_changes() {
                Some((changes, false)) => known = replay_map(known, changes),
                Some((_, true)) => known = map.snapshot(),
                None => {}
            }
            assert_eq!(known, map.snapshot());
        }
    }
}

#[test]
fn vec_batch_replays_unless_missed() {
    let vec = WatchableVec::<i32>::with_capacity(4);
    let mut watcher = vec.watch_changes();
    let mut known: Vec<i32> = Vec::new();
    for round in 0..40 {
        match round % 5 {
            0 => vec.push(round),
            1 => assert!(vec.insert(0, round).is_ok()),
            2 => vec.push(-round),
            3 => assert!(vec.set(0, round).is_ok()),
            _ => {
                if round % 2 == 0 {
                    vec.clear();
                } else {
                    vec.pop();
                }
            }
        }
        if round % 7 == 0 {
            match watcher.poll_changes() {
                Some((changes, false)) => known = replay_vec(known, changes),
                Some((_, true)) => known = vec.snapshot(),
                None => unreachable!(),
            }
            assert_eq!(known, vec.snapshot());
            assert!(watcher.poll_changes().is_none());
        }
    }
}

#[test]
fn value_history_has_no_gaps() {
    let w = WatchableWithHistory::new(0);
    let mut watcher = w.watch_changes();
    for value in 1..=5 {
        w.set(value * value);
    }
    let (changes, missed) = watcher.poll_changes().unwrap();
    assert!(!missed);
    assert_eq!(changes.len(), 5);
    assert_eq!(changes[0], ValueChange { old: 0, new: 1 });
    for pair in changes.windows(2) {
        assert_eq!(pair[0].new, pair[1].old);
    }
    assert_eq!(changes[4], ValueChange { old: 16, new: 25 });
    assert!(watcher.poll_changes().is_none());
}

#[test]
fn value_changes_chain() {
    let w = WatchableWithHistory::new(1);
    let mut watcher = w.watch_changes();
    w.set(2);
    assert_eq!(w.modify(|value| { *value += 5; *value }), 7);
    assert_eq!(w.get(), 7);
    assert_eq!(w.read(|value| *value), 7);
    assert_eq!(w.clone().get(), 7);
    let (changes, missed) = watcher.poll_changes().unwrap();
    assert!(!missed);
    assert_eq!(changes, vec![ValueChange { old: 1, new: 2 }, ValueChange { old: 2, new: 7 }]);
    assert!(watcher.poll_changes().is_none());
    assert_eq!(WatchableWithHistory::<i32>::default().get(), 0);
}

#[test]
fn changes_of_values_tell_old_and_new() {
    let mut value = 3;
    assert_eq!(replace_value(&mut value, 4), ValueChange { old: 3, new: 4 });
    assert_eq!(value, 4);
    let (answer, change) = modify_value(&mut value, |value| {
        *value = 9;
        "done"
    });
    assert_eq!(answer, "done");
    assert_eq!(change, ValueChange { old: 4, new: 9 });
    assert_eq!(value, 9);
}

#[test]
fn small_history_is_missed() {
    let w = WatchableWithHistory::with_capacity(0, 1);
    let mut watcher = w.watch_changes();
    w.set(1);
    w.set(2);
    assert_eq!(watcher.poll_changes(), Some((vec![], true)));
    w.set(3);
    assert_eq!(watcher.poll_changes(), Some((vec![ValueChange { old: 2, new: 3 }], false)));
}

#[test]
fn batches_fit_the_buffer() {
    for capacity in 1..5 {
        let vec = WatchableVec::with_capacity(capacity);
        let mut watcher = vec.watch_changes();
        for count in 1..12 {
            for value in 0..count {
                vec.push(value);
            }
            let (changes, missed) = watcher.poll_changes().unwrap();
            assert!(changes.len() <= capacity);
            assert_eq!(missed, changes.len() < count);
        }
    }
}

#[test]
fn reset_watcher_skips_what_was_before() {
    let vec = WatchableVec::new();
    let mut watcher = vec.watch_changes();
    vec.push(1);
    watcher.reset();
    assert!(watcher.poll_changes().is_none());
    vec.push(2);
    let (changes, missed) = watcher.poll_changes().unwrap();
    assert_eq!(changes.len(), 2);
    assert!(!missed);
}

#[test]
fn change_watcher_notices_that_its_source_is_gone() {
    let vec = WatchableVec::new();
    let mut watcher = vec.watch_changes();
    let twin = watcher.clone();
    vec.push(1);
    assert!(watcher.is_connected());
    drop(vec);
    assert!(!watcher.is_connected());
    assert!(!twin.is_connected());
    assert!(watcher.poll_changes().is_none());
    watcher.reset();
}
