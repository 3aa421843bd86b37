//! Single values: their states, their handles and their watchers.
use watchable_rs::epoch::{advance, bump};
use watchable_rs::state::WatchableState;
use watchable_rs::{
    Disconnected, Watchable, WatchableAtomic, WatchableFast, WatchableLite, WatchableWithHistory,
    Watcher,
};

#[test]
fn epochs_count_and_wrap() {
    let mut epoch = 1;
    bump(&mut epoch);
    assert_eq!(epoch, 2);
    let mut epoch = u64::MAX;
    bump(&mut epoch);
    assert_eq!(epoch, 0);
}

#[test]
fn change_leaves_watchers_behind() {
    let mut epoch = 5;
    for caught_up in [0, 3, 5] {
        let mut last = caught_up;
        bump(&mut epoch);
        assert!(advance(&mut last, epoch));
        assert_eq!(last, epoch);
        assert!(!advance(&mut last, epoch));
        assert!(!advance(&mut last, 2));
        assert_eq!(last, epoch);
        epoch = 5;
    }
}

#[test]
fn new_watcher_is_up_to_date() {
    let mut state = WatchableState::new(7);
    state.set(8);
    let mut seen = state.clone();
    assert_eq!((seen.value, seen.epoch), (8, 2));
    assert!(!seen.take_in(state.since(seen.epoch)));
    assert_eq!((seen.value, seen.epoch), (8, 2));
}

#[test]
fn watcher_sees_latest_value() {
    let mut state = WatchableState::new(0);
    let mut seen = state.clone();
    for value in 1..=10 {
        state.set(value);
    }
    assert_eq!(state.epoch, 11);
    assert!(seen.take_in(state.since(seen.epoch)));
    assert_eq!((seen.value, seen.epoch), (10, 11));
}

#[test]
fn second_look_finds_nothing() {
    let mut state = WatchableState::new("a");
    let mut seen = state.clone();
    state.set("b");
    assert!(seen.take_in(state.since(seen.epoch)));
    assert!(!seen.take_in(state.since(seen.epoch)));
    assert_eq!(seen.value, "b");
}

#[test]
fn looks_never_go_back() {
    let state = WatchableState { value: 1, epoch: 3 };
    let mut seen = WatchableState { value: 2, epoch: 9 };
    assert!(state.since(seen.epoch).is_none());
    assert!(!seen.take_in(state.since(seen.epoch)));
    assert_eq!((seen.value, seen.epoch), (2, 9));
}

#[test]
fn pending_change_is_reported() {
    let w = Watchable::new(0);
    let mut watcher = w.watch();
    for round in 0..6 {
        if round % 2 == 0 {
            w.set(round);
        }
        let pending = watcher.has_changed();
        assert_eq!(pending, round % 2 == 0);
        assert_eq!(watcher.update(), pending);
    }
}

#[test]
fn value_outlives_source() {
    let w = Watchable::new(1);
    let mut watcher = w.watch();
    w.set(2);
    drop(w);
    assert!(!watcher.has_changed());
    assert!(!watcher.update());
    assert_eq!(watcher.get(), 1);
}

#[test]
fn wrapped_epoch_is_not_news() {
    let mut state = WatchableState { value: 1, epoch: u64::MAX };
    let seen = state.clone();
    state.set(2);
    assert_eq!(state.epoch, 0);
    assert!(state.since(seen.epoch).is_none());
}

#[test]
fn state_changes_only_to_another_value() {
    let mut state = WatchableState::new(1);
    assert_eq!(state.set_if_changed(1), Err(1));
    assert_eq!(state.epoch, 1);
    assert_eq!(state.set_if_changed(2), Ok(1));
    assert_eq!((state.value, state.epoch), (2, 2));
}

#[test]
fn state_is_modified_in_place() {
    let mut state = WatchableState::new(vec![1]);
    let len = state.modify(|value| {
        value.push(2);
        value.len()
    });
    assert_eq!(len, 2);
    assert_eq!(state.value, vec![1, 2]);
    assert_eq!(state.epoch, 2);
}

#[test]
fn handles_share_one_value() {
    let w = Watchable::new(1);
    let other = w.clone();
    other.set(2);
    assert_eq!(w.get(), 2);
    assert_eq!(w.read(|value| value + 1), 3);
    assert_eq!(w.modify(|value| std::mem::replace(value, 5)), 2);
    assert_eq!(other.get(), 5);
    assert_eq!(Watchable::<i32>::default().get(), 0);
}

#[test]
fn set_if_changed_hands_back_a_value() {
    let w = Watchable::new(42);
    assert_eq!(w.set_if_changed(100), Ok(42));
    let watcher = w.watch();
    assert_eq!(w.set_if_changed(100), Err(100));
    assert!(!watcher.has_changed());
    w.modify(|_| ());
    assert!(watcher.has_changed());
}

#[test]
fn watchers_are_counted() {
    let w = Watchable::new(0);
    assert!(!w.has_watchers());
    let watcher = w.watch();
    assert!(w.has_watchers());
    drop(watcher);
    assert!(!w.has_watchers());

    let w = WatchableLite::new(0);
    assert!(!w.has_watchers());
    let watcher = w.watch();
    assert!(w.has_watchers());
    drop(watcher);
    assert!(!w.has_watchers());

    let w = WatchableAtomic::new(0u8);
    let _watcher = w.watch();
    assert!(w.has_watchers());

    let w = WatchableFast::new(0);
    assert!(!w.has_watchers());
    let _watcher = w.watch();
    assert!(w.has_watchers());

    let w = WatchableWithHistory::new(0);
    assert!(!w.has_watchers());
    let _watcher = w.watch_changes();
    assert!(w.has_watchers());
}

#[test]
fn cloned_watcher_stands_where_it_was_cloned() {
    let w = Watchable::new(1);
    let mut first = w.watch();
    w.set(2);
    let mut second = first.clone();
    assert_eq!(first.get(), 2);
    assert!(second.has_changed());
    assert_eq!(*second.peek(), 1);
    assert_eq!(second.get(), 2);
}

#[test]
fn connection_lasts_as_long_as_a_handle() {
    let w = Watchable::new(1);
    let other = w.clone();
    let watcher = w.watch();
    drop(w);
    assert!(watcher.is_connected());
    drop(other);
    assert!(!watcher.is_connected());
}

#[test]
fn lite_values_are_polled() {
    let w = WatchableLite::new(1);
    let mut watcher = w.watch();
    assert!(!watcher.update());
    assert_eq!(w.modify(|value| { *value += 4; *value }), 5);
    assert!(watcher.has_changed());
    assert_eq!(watcher.get(), 5);
    assert!(!watcher.has_changed());
    assert_eq!(w.read(|value| *value), 5);
    assert_eq!(w.clone().get(), 5);
    assert_eq!(WatchableLite::<u8>::default().get(), 0);
    drop(w);
    assert!(!watcher.is_connected());
    assert!(!watcher.update());
    assert_eq!(watcher.get(), 5);
}

#[test]
fn watcher_that_is_not_behind_has_the_latest_value() {
    let lite = WatchableLite::new(0);
    let atomic = WatchableAtomic::new(0u16);
    let (mut watch_lite, mut watch_atomic) = (lite.watch(), atomic.watch());
    for value in 1..100u16 {
        lite.set(value);
        atomic.set(value);
        if value % 3 == 0 {
            assert!(watch_lite.update());
            assert!(watch_atomic.update());
        }
        assert!(watch_lite.has_changed() || *watch_lite.peek() == lite.get());
        assert!(watch_atomic.has_changed() || *watch_atomic.peek() == atomic.get());
    }
}

#[test]
fn atomic_change_reaches_every_watcher() {
    let w = WatchableAtomic::new(1u32);
    let mut one = w.watch();
    let mut other = w.watch();
    assert!(!one.has_changed() && !other.has_changed());
    w.set(7);
    assert_eq!(w.get(), 7);
    assert!(one.has_changed() && other.has_changed());
    assert!(one.update());
    assert_eq!(one.peek(), &7);
    assert!(!one.update());
    assert!(other.has_changed());
    assert_eq!(other.get(), 7);
    assert_eq!(w.watch().peek(), &7);
}

#[test]
fn atomic_values_are_copied() {
    let w = WatchableAtomic::new((1u32, 2u32));
    let mut watcher = w.watch();
    assert!(!watcher.has_changed());
    w.set((3, 4));
    assert_eq!(w.get(), (3, 4));
    assert_eq!(w.clone().get(), (3, 4));
    assert!(watcher.has_changed());
    assert_eq!(watcher.get(), (3, 4));
    assert!(!watcher.update());
    assert_eq!(WatchableAtomic::<u64>::default().get(), 0);
    drop(w);
    assert!(!watcher.is_connected());
    assert!(!watcher.update());
    assert_eq!(*watcher.peek(), (3, 4));
}

#[test]
fn fast_values_tell_whether_they_changed() {
    let w = WatchableFast::new(1);
    let mut watcher = w.watch();
    assert!(!w.set_if_changed(1));
    assert!(!watcher.has_changed());
    assert!(w.set_if_changed(2));
    assert!(watcher.has_changed());
    assert_eq!(watcher.get(), 2);
    assert_eq!(w.modify(|value| { *value *= 10; *value }), 20);
    assert_eq!(w.read(|value| *value), 20);
    assert_eq!(watcher.get(), 20);
    assert_eq!(WatchableFast::<i32>::default().get(), 0);
    for i in 0..10 {
        w.set(i);
    }
    assert!(watcher.update());
    assert_eq!(watcher.peek(), &9);
    assert!(!watcher.update());
}

#[test]
fn error_in_words() {
    assert_eq!(Disconnected.message(), "watchable disconnected");
}

#[test]
fn what_was_set_is_read_back() {
    let (w, fast, lite) = (Watchable::new(0), WatchableFast::new(0), WatchableLite::new(0));
    let (atomic, history) = (WatchableAtomic::new(0), WatchableWithHistory::new(0));
    for value in [5, -1, 7, 7] {
        w.set(value);
        fast.set(value);
        lite.set(value);
        atomic.set(value);
        history.set(value);
        assert_eq!([w.get(), fast.get(), lite.get(), atomic.get(), history.get()], [value; 5]);
        assert_eq!(w.watch().get(), value);
    }
}

#[test]
fn what_was_set_is_told() {
    let mut state = WatchableState::new('a');
    state.set('b');
    for epoch in 0..=1 {
        assert!(state.is_after(epoch));
        let copy = state.since(epoch).unwrap();
        assert_eq!((copy.value, copy.epoch), ('b', 2));
    }
    assert!(!state.is_after(2));
    assert_eq!(state.clone_value(()), 'b');
    assert_eq!(state.read(|value| value.to_ascii_uppercase()), 'B');
}

#[test]
fn new_watcher_of_a_changed_value_is_not_behind() {
    let (w, fast, lite) = (Watchable::new(0), WatchableFast::new(0), WatchableLite::new(0));
    let atomic = WatchableAtomic::new(0);
    for value in 1..4 {
        w.set(value);
        fast.set(value);
        lite.set(value);
        atomic.set(value);
    }
    let (mut w, mut fast) = (w.watch(), fast.watch());
    let (mut lite, mut atomic) = (lite.watch(), atomic.watch());
    assert!(!w.has_changed() && !w.update() && *w.peek() == 3);
    assert!(!fast.has_changed() && !fast.update() && *fast.peek() == 3);
    assert!(!lite.has_changed() && !lite.update() && *lite.peek() == 3);
    assert!(!atomic.has_changed() && !atomic.update() && *atomic.peek() == 3);
}
