//! Waiting for values and changes.
use std::future::Future;
use std::sync::atomic::{AtomicUsize, Ordering};
use std::sync::Arc;
use std::task::{Context, Poll, Wake, Waker};

use futures_lite::StreamExt;
use watchable_rs::shared::{is_found_ahead, poll_found, update_found, WatchableShared};
use watchable_rs::{
    Disconnected, Join, OptionWatcher, Pair, Watchable, WatchableAtomic, WatchableFast,
    WatchableLite, WatchableMap, WatchableMapLite, WatchableVec, WatchableVecLite, Watcher,
};

struct Count(AtomicUsize);

impl Count {
    fn get(&self) -> usize {
        self.0.load(Ordering::SeqCst)
    }
}

impl Wake for Count {
    fn wake(self: Arc<Self>) {
        self.0.fetch_add(1, Ordering::SeqCst);
    }
}

fn counter() -> (Arc<Count>, Waker) {
    let count = Arc::new(Count(AtomicUsize::new(0)));
    (count.clone(), Waker::from(count))
}

fn runtime() -> tokio::runtime::Runtime {
    tokio::runtime::Builder::new_current_thread().build().unwrap()
}

#[test]
fn test_async_updated() {
    runtime().block_on(async {
        let w = Watchable::new(0);
        let mut watcher = w.watch();

        let handle = tokio::spawn(async move { watcher.updated().await });

        tokio::task::yield_now().await;
        w.set(42);

        let result = handle.await.unwrap();
        assert_eq!(result.unwrap(), 42);
    });
}

#[test]
fn test_initialized() {
    runtime().block_on(async {
        let w = Watchable::new(None::<i32>);
        let mut watcher = w.watch();

        let handle = tokio::spawn(async move { watcher.initialized().await });

        tokio::task::yield_now().await;
        w.set(Some(42));

        let result = handle.await.unwrap();
        assert_eq!(result.unwrap(), 42);
    });
}

#[test]
fn test_concurrent_writes() {
    runtime().block_on(async {
        let w = WatchableFast::new(0i32);
        let handles: Vec<_> = (0..4)
            .map(|t| {
                let w = w.clone();
                tokio::task::spawn_blocking(move || {
                    for i in 0..1000 {
                        w.set(t * 1000 + i);
                    }
                })
            })
            .collect();

        for h in handles {
            h.await.unwrap();
        }
    });
}

#[test]
fn concurrent_writes_all_count() {
    runtime().block_on(async {
        let vec = WatchableVec::with_capacity(4000);
        let mut watcher = vec.watch_changes();
        let handles: Vec<_> = (0..4)
            .map(|t| {
                let vec = vec.clone();
                tokio::task::spawn_blocking(move || {
                    for i in 0..1000 {
                        vec.push(t * 1000 + i);
                    }
                })
            })
            .collect();
        for h in handles {
            h.await.unwrap();
        }
        let (changes, missed) = watcher.poll_changes().unwrap();
        assert_eq!(changes.len(), 4000);
        assert!(!missed);
        assert_eq!(vec.len(), 4000);
    });
}

#[test]
fn waiting_task_is_woken_by_a_change() {
    let (count, waker) = counter();
    let mut cx = Context::from_waker(&waker);
    let w = Watchable::new(1);
    let mut watcher = w.watch();
    assert!(watcher.poll_updated(&mut cx).is_pending());
    assert_eq!(count.get(), 0);
    w.set(2);
    assert_eq!(count.get(), 1);
    assert_eq!(watcher.poll_updated(&mut cx), Poll::Ready(Ok(())));
    assert_eq!(watcher.peek(), &2);
    w.set(3);
    assert_eq!(count.get(), 1);
    assert_eq!(watcher.poll_updated(&mut cx), Poll::Ready(Ok(())));
    assert!(watcher.poll_updated(&mut cx).is_pending());
    assert_eq!(w.set_if_changed(3), Err(3));
    assert_eq!(count.get(), 1);
    w.modify(|value| *value += 1);
    assert_eq!(count.get(), 2);
}

struct Named(usize, Arc<parking_lot::Mutex<Vec<usize>>>);

impl Wake for Named {
    fn wake(self: Arc<Self>) {
        self.1.lock().push(self.0);
    }
}

#[test]
fn tasks_are_woken_in_the_order_in_which_they_came() {
    let order = Arc::new(parking_lot::Mutex::new(Vec::new()));
    let value = Watchable::new(0);
    let lite = WatchableVecLite::new();
    let vec = WatchableVec::new();
    for name in 0..4 {
        let waker = Waker::from(Arc::new(Named(name, order.clone())));
        let mut cx = Context::from_waker(&waker);
        assert!(value.watch().poll_updated(&mut cx).is_pending());
        assert!(lite.watch().poll_or_wait(&mut cx).is_pending());
        assert!(vec.watch_changes().poll_or_wait(&mut cx).is_pending());
    }
    value.set(1);
    lite.push(1);
    vec.push(1);
    assert_eq!(*order.lock(), vec![0, 1, 2, 3, 0, 1, 2, 3, 0, 1, 2, 3]);
}

#[test]
fn waiting_task_is_woken_when_the_source_goes() {
    let (count, waker) = counter();
    let mut cx = Context::from_waker(&waker);
    let w = Watchable::new(1);
    let mut watcher = w.watch();
    let mut future = Box::pin(watcher.updated());
    assert!(future.as_mut().poll(&mut cx).is_pending());
    drop(w);
    assert_eq!(count.get(), 1);
    assert_eq!(future.as_mut().poll(&mut cx), Poll::Ready(Err(Disconnected)));
}

#[test]
fn no_stored_value_goes_unnoticed() {
    let (count, waker) = counter();
    let mut cx = Context::from_waker(&waker);
    let w = Watchable::new(0);
    let mut watchers: Vec<_> = (0..5).map(|_| w.watch()).collect();
    for round in 1..=4 {
        for watcher in &mut watchers {
            assert!(watcher.poll_updated(&mut cx).is_pending());
        }
        w.set(round);
        assert_eq!(count.get(), 5 * round);
        for watcher in &mut watchers {
            assert_eq!(watcher.poll_updated(&mut cx), Poll::Ready(Ok(())));
        }
    }
    w.set(9);
    assert_eq!(count.get(), 20);
}

#[test]
fn fast_value_wakes_too() {
    let (count, waker) = counter();
    let mut cx = Context::from_waker(&waker);
    let w = WatchableFast::new(1);
    let mut watcher = w.watch();
    assert!(watcher.poll_updated(&mut cx).is_pending());
    assert!(w.set_if_changed(2));
    assert_eq!(count.get(), 1);
    assert_eq!(watcher.poll_updated(&mut cx), Poll::Ready(Ok(())));
    drop(w);
    assert_eq!(watcher.poll_updated(&mut cx), Poll::Ready(Err(Disconnected)));
}

#[test]
fn lite_and_atomic_values_do_not_wake() {
    let (count, waker) = counter();
    let mut cx = Context::from_waker(&waker);

    let w = WatchableLite::new(1);
    let mut watcher = w.watch();
    assert!(watcher.poll_updated(&mut cx).is_pending());
    w.set(2);
    assert_eq!(watcher.poll_updated(&mut cx), Poll::Ready(Ok(())));
    drop(w);
    assert_eq!(watcher.poll_updated(&mut cx), Poll::Ready(Err(Disconnected)));

    let w = WatchableAtomic::new(1u8);
    let mut watcher = w.watch();
    assert!(watcher.poll_updated(&mut cx).is_pending());
    w.set(2);
    assert_eq!(watcher.poll_updated(&mut cx), Poll::Ready(Ok(())));
    drop(w);
    assert_eq!(watcher.poll_updated(&mut cx), Poll::Ready(Err(Disconnected)));

    assert_eq!(count.get(), 0);
}

#[test]
fn initialized_does_not_wait_for_a_value_that_is_there() {
    let w = Watchable::new(None);
    let mut watcher = w.watch();
    w.set(Some(1));
    w.set(Some(2));
    assert_eq!(futures_lite::future::block_on(watcher.initialized()), Ok(2));
}

#[test]
fn initialized_waits_past_missing_values() {
    let (count, waker) = counter();
    let mut cx = Context::from_waker(&waker);
    let w = Watchable::new(None);
    let mut watcher = w.watch();
    let mut future = Box::pin(watcher.initialized());
    assert!(future.as_mut().poll(&mut cx).is_pending());
    w.set(None);
    assert_eq!(count.get(), 1);
    assert!(future.as_mut().poll(&mut cx).is_pending());
    w.set(Some(7));
    assert_eq!(count.get(), 2);
    assert_eq!(future.as_mut().poll(&mut cx), Poll::Ready(Ok(7)));

    let mut watcher = Watchable::new(None::<i32>).watch();
    assert_eq!(futures_lite::future::block_on(watcher.initialized()), Err(Disconnected));
}

#[test]
fn mapped_watcher_waits_past_equal_values() {
    let (count, waker) = counter();
    let mut cx = Context::from_waker(&waker);
    let w = Watchable::new(1);
    let mut parity = w.watch().map(|v| v % 2);
    assert!(parity.poll_updated(&mut cx).is_pending());
    w.set(3);
    assert_eq!(count.get(), 1);
    assert!(parity.poll_updated(&mut cx).is_pending());
    w.set(4);
    assert_eq!(parity.poll_updated(&mut cx), Poll::Ready(Ok(())));
    assert_eq!(parity.peek(), &0);
    drop(w);
    assert_eq!(parity.poll_updated(&mut cx), Poll::Ready(Err(Disconnected)));
}

#[test]
fn pair_waits_for_either_side() {
    let (_, waker) = counter();
    let mut cx = Context::from_waker(&waker);
    let a = Watchable::new(1);
    let b = Watchable::new('x');
    let mut both = a.watch().and(b.watch());
    assert!(both.poll_updated(&mut cx).is_pending());
    b.set('y');
    assert_eq!(both.poll_updated(&mut cx), Poll::Ready(Ok(())));
    assert_eq!(both.peek(), &(1, 'y'));
    a.set(2);
    drop(b);
    assert_eq!(both.poll_updated(&mut cx), Poll::Ready(Err(Disconnected)));
    assert_eq!(both.peek(), &(2, 'y'));
}

#[test]
fn pair_keeps_the_latest_value_after_a_failed_poll() {
    let (_, waker) = counter();
    let mut cx = Context::from_waker(&waker);
    let a = Watchable::new(1);
    let b = Watchable::new(10);
    let mut both = a.watch().and(b.watch());
    drop(a);
    b.set(20);
    assert_eq!(both.poll_updated(&mut cx), Poll::Ready(Err(Disconnected)));
    assert_eq!(both.peek(), &(1, 20));
    assert!(both.has_changed());
    assert!(both.clone().update());
    assert!(both.update());
    assert!(!both.has_changed());
    assert!(!both.update());
    assert_eq!(both.get(), (1, 20));
    b.set(30);
    assert_eq!(both.get(), (1, 30));
    assert_eq!(both.poll_updated(&mut cx), Poll::Ready(Err(Disconnected)));
    assert!(!both.has_changed());
}

#[test]
fn join_reports_later_what_a_failed_poll_took_in() {
    let (_, waker) = counter();
    let mut cx = Context::from_waker(&waker);
    let mut watchables: Vec<_> = (0..3).map(Watchable::new).collect();
    let mut joined = Join::new(watchables.iter().map(|w| w.watch()));
    let mut total = joined.clone().map(|values| values.iter().sum::<i32>());
    watchables[0].set(7);
    watchables.remove(1);
    assert_eq!(joined.poll_updated(&mut cx), Poll::Ready(Err(Disconnected)));
    assert!(joined.has_changed());
    assert!(joined.update());
    assert_eq!(joined.peek(), &vec![7, 1, 2]);
    assert!(!joined.has_changed());
    assert!(!joined.update());
    assert_eq!(total.poll_updated(&mut cx), Poll::Ready(Err(Disconnected)));
    assert_eq!(total.peek(), &3);
    assert!(total.has_changed());
    assert!(total.update());
    assert_eq!(total.peek(), &10);
    assert!(!total.update());
}

#[test]
fn function_is_not_called_when_the_source_is_gone() {
    let (_, waker) = counter();
    let mut cx = Context::from_waker(&waker);
    let calls = Arc::new(AtomicUsize::new(0));
    let w = Watchable::new(1);
    let seen = calls.clone();
    let mut mapped = w.watch().map(move |v| {
        seen.fetch_add(1, Ordering::SeqCst);
        v + 1
    });
    assert_eq!(calls.load(Ordering::SeqCst), 1);
    drop(w);
    assert_eq!(mapped.poll_updated(&mut cx), Poll::Ready(Err(Disconnected)));
    assert!(!mapped.update());
    assert!(!mapped.has_changed());
    assert_eq!(calls.load(Ordering::SeqCst), 1);
    assert_eq!(mapped.peek(), &2);
}

#[test]
fn each_registration_is_woken_once() {
    let (count, waker) = counter();
    let mut cx = Context::from_waker(&waker);
    let w = Watchable::new(1);
    let mut one = w.watch();
    let mut other = w.watch();
    assert!(one.poll_updated(&mut cx).is_pending());
    assert!(other.poll_updated(&mut cx).is_pending());
    w.set(1);
    assert_eq!(count.get(), 2);
    assert!(one.has_changed() && other.has_changed());
    w.set(2);
    assert_eq!(count.get(), 2);
    assert_eq!(one.poll_updated(&mut cx), Poll::Ready(Ok(())));
    assert!(one.poll_updated(&mut cx).is_pending());
    w.set(3);
    assert_eq!(count.get(), 3);
    assert_eq!(other.get(), 3);
}

#[test]
fn watchers_of_a_pair_keep_its_latest_value_after_a_failed_poll() {
    let (_, waker) = counter();
    let mut cx = Context::from_waker(&waker);
    let a = Watchable::new(1);
    let b = Watchable::new(10);
    let c = Watchable::new(100);
    let pair = a.watch().and(b.watch());
    let mut sum = pair.clone().map(|(a, b)| a + b);
    let mut nested = pair.clone().and(c.watch());
    let mut joined = Join::new(vec![pair].into_iter());
    drop(a);
    b.set(20);
    assert_eq!(sum.poll_updated(&mut cx), Poll::Ready(Err(Disconnected)));
    assert_eq!(sum.get(), 21);
    assert_eq!(nested.poll_updated(&mut cx), Poll::Ready(Err(Disconnected)));
    assert_eq!(nested.get(), ((1, 20), 100));
    assert_eq!(joined.poll_updated(&mut cx), Poll::Ready(Err(Disconnected)));
    assert_eq!(joined.get(), vec![(1, 20)]);
}

#[test]
fn polling_fails_exactly_where_nothing_was_found() {
    let (count, waker) = counter();
    let mut cx = Context::from_waker(&waker);
    let shared = Arc::new(WatchableShared::new(1));
    let mut seen = shared.snapshot();
    assert_eq!(poll_found(None, &mut seen, &mut cx), Poll::Ready(Err(Disconnected)));
    assert!(!update_found(None, &mut seen));
    assert!(!is_found_ahead(None, &seen));
    assert!(poll_found(Some(shared.clone()), &mut seen, &mut cx).is_pending());
    shared.set(2);
    assert_eq!(count.get(), 1);
    assert!(is_found_ahead(Some(shared.clone()), &seen));
    assert_eq!(poll_found(Some(shared.clone()), &mut seen, &mut cx), Poll::Ready(Ok(())));
    assert_eq!((seen.value, seen.epoch), (2, 2));
    shared.set(3);
    assert!(update_found(Some(shared.clone()), &mut seen));
    assert_eq!((seen.value, seen.epoch), (3, 3));

    let lite = WatchableVecLite::<i32>::new();
    let mut epoch = lite.watch();
    assert_eq!(epoch.poll_found(None, &mut cx), Poll::Ready(Err(Disconnected)));
    assert!(epoch.is_connected());
    let vec = WatchableVec::<i32>::new();
    let mut changes = vec.watch_changes();
    assert_eq!(changes.poll_found(None, &mut cx), Poll::Ready(Err(Disconnected)));
    assert!(changes.is_connected());
}

#[test]
fn dropping_a_handle_wakes_while_another_one_lasts() {
    let (count, waker) = counter();
    let mut cx = Context::from_waker(&waker);
    let w = Watchable::new(42);
    let other = w.clone();
    let mut watcher = w.watch();
    assert!(watcher.poll_updated(&mut cx).is_pending());
    drop(other);
    assert_eq!(count.get(), 1);
    assert!(watcher.is_connected());
    assert!(watcher.poll_updated(&mut cx).is_pending());
    drop(w);
    assert_eq!(count.get(), 2);
    assert!(!watcher.is_connected());
    assert_eq!(watcher.poll_updated(&mut cx), Poll::Ready(Err(Disconnected)));
    assert_eq!(watcher.peek(), &42);
}

#[test]
fn every_waiting_task_is_woken_by_a_writer() {
    runtime().block_on(async {
        let w = Watchable::new(0);
        let tasks: Vec<_> = (0..200)
            .map(|_| {
                let mut watcher = w.watch();
                tokio::task::spawn_blocking(move || {
                    let mut last = 0;
                    while last < 500 {
                        last = futures_lite::future::block_on(watcher.updated()).unwrap();
                    }
                    last
                })
            })
            .collect();
        for value in 1..=500 {
            w.set(value);
        }
        for task in tasks {
            assert_eq!(task.await.unwrap(), 500);
        }
    });
}

#[test]
fn join_waits_for_any() {
    let (_, waker) = counter();
    let mut cx = Context::from_waker(&waker);
    let mut watchables: Vec<_> = (0..3).map(Watchable::new).collect();
    let mut joined = Join::new(watchables.iter().map(|w| w.watch()));
    assert!(joined.poll_updated(&mut cx).is_pending());
    watchables[0].set(5);
    watchables[2].set(6);
    assert_eq!(joined.poll_updated(&mut cx), Poll::Ready(Ok(())));
    assert_eq!(joined.peek(), &vec![5, 1, 6]);
    watchables[0].set(7);
    watchables.remove(1);
    assert_eq!(joined.poll_updated(&mut cx), Poll::Ready(Err(Disconnected)));
    assert_eq!(joined.peek(), &vec![7, 1, 6]);
}

#[test]
fn combined_watchers_can_be_awaited() {
    let a = Watchable::new(1);
    let b = Watchable::new(2);
    let mut both = a.watch().and(b.watch()).map(|(a, b)| a + b);
    a.set(10);
    assert_eq!(futures_lite::future::block_on(both.updated()), Ok(12));
}

#[test]
fn stream_starts_with_the_current_value() {
    runtime().block_on(async {
        let counter = Watchable::new(0);
        let mut stream = counter.watch().stream();
        let producer = tokio::spawn(async move {
            for i in 1..=3 {
                tokio::task::yield_now().await;
                counter.set(i);
            }
            tokio::task::yield_now().await;
        });
        let mut seen = Vec::new();
        while let Some(value) = stream.next().await {
            seen.push(value);
        }
        producer.await.unwrap();
        assert_eq!(seen, vec![0, 1, 2, 3]);
    });
}

#[test]
fn stream_of_updates_skips_the_current_value() {
    let w = Watchable::new("initial");
    let mut stream = w.watch().stream_updates_only();
    futures_lite::future::block_on(async {
        assert!(futures_lite::future::poll_once(stream.next()).await.is_none());
        w.set("alpha");
        w.set("beta");
        assert_eq!(stream.next().await, Some("beta"));
        drop(w);
        assert_eq!(stream.next().await, None);
    });
}

#[test]
fn next_changes_come_in_batches() {
    let (count, waker) = counter();
    let mut cx = Context::from_waker(&waker);
    let vec = WatchableVec::new();
    let mut watcher = vec.watch_changes();
    {
        let mut future = Box::pin(watcher.next_changes());
        assert!(future.as_mut().poll(&mut cx).is_pending());
        vec.push(1);
        assert_eq!(count.get(), 1);
        vec.push(2);
        assert_eq!(count.get(), 1);
        match future.as_mut().poll(&mut cx) {
            Poll::Ready(Ok((changes, missed))) => {
                assert_eq!(changes.len(), 2);
                assert!(!missed);
            }
            other => panic!("{other:?} is no batch"),
        }
    }
    drop(vec);
    assert_eq!(
        futures_lite::future::block_on(watcher.next_changes()),
        Err(Disconnected)
    );
}

#[test]
fn change_stream_ends_with_its_source() {
    let map = WatchableMap::new();
    let mut stream = map.watch_changes().into_stream();
    futures_lite::future::block_on(async {
        assert!(futures_lite::future::poll_once(stream.next()).await.is_none());
        map.insert("x", 1);
        map.insert("y", 2);
        map.remove(&"x");
        let (changes, missed) = stream.next().await.unwrap();
        assert_eq!(changes.len(), 3);
        assert!(!missed);
        drop(map);
        assert!(stream.next().await.is_none());
    });
}

#[test]
fn lite_collections_wake_who_waits() {
    let (count, waker) = counter();
    let mut cx = Context::from_waker(&waker);
    let lite = WatchableVecLite::new();
    let mut epoch = lite.watch();
    {
        let mut future = Box::pin(epoch.changed());
        assert!(future.as_mut().poll(&mut cx).is_pending());
        lite.push(1);
        assert_eq!(count.get(), 1);
        assert_eq!(future.as_mut().poll(&mut cx), Poll::Ready(Ok(())));
    }
    lite.push(2);
    assert_eq!(count.get(), 1);
    assert_eq!(futures_lite::future::block_on(epoch.changed()), Ok(()));
    drop(lite);
    assert_eq!(futures_lite::future::block_on(epoch.changed()), Err(Disconnected));

    let lite = WatchableMapLite::new();
    let mut epoch = lite.watch();
    assert!(epoch.poll_or_wait(&mut cx).is_pending());
    lite.insert(1, 1);
    assert_eq!(count.get(), 2);
    assert_eq!(epoch.poll_or_wait(&mut cx), Poll::Ready(Ok(())));
}
