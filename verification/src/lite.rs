//! The watchable that can only be polled.
use std::sync::Arc;
use std::task::{Context, Poll, Waker};

use parking_lot::RwLock;
use vstd::pervasive::strictly_cloned;
use vstd::prelude::*;

use crate::epoch::{
    advance, count_after, new_counter, read_count, Counter, CounterLink, Gauge, Glance,
};
use crate::error::Disconnected;
use crate::sync::{
    clone_of, is_watched, new_lock, read_after, read_with, run_on, run_on_mut,
    write_with, ReadLink, ReadOnly, Receipt, WeakRef,
};
use crate::watcher::{Progress, Watcher};

verus! {

/// Lightweight watchable with minimal overhead.
///
/// Only tracks that something changed, not async-wake capable.
/// Use polling for change detection. Its clones are handles to one and the same value.
#[derive(Debug)]
#[verifier::reject_recursive_types(T)]
pub struct WatchableLite<T> {
    data: Arc<RwLock<T>>,
    epoch: Arc<Counter>,
}

impl<T> WatchableLite<T> {
    /// What the handle shares with its clones and its watchers.
    pub closed spec fn shared(self) -> (Arc<RwLock<T>>, Arc<Counter>) {
        (self.data, self.epoch)
    }

    /// The lock behind the handle is one that `RwLock::new` gives for `value`, and the epoch
    /// next to it was made as the first one.
    pub open spec fn began_with(self, value: T) -> bool {
        &&& crate::sync::made_with(*self.shared().0, value)
        &&& crate::epoch::starts_counting(*self.shared().1)
    }

    /// A thread took this step on what the handle shares. Storing gives the receipt, and counting
    /// asks for it: it comes after what the receipt is for.
    pub open spec fn takes(self, step: CountedStep<T>, receipt: Receipt) -> bool {
        match step {
            CountedStep::Store(value) => crate::sync::writes(
                *self.shared().0,
                value,
                replace_with::<T>,
                (),
                receipt,
            ),
            CountedStep::Count => crate::epoch::counts_after(*self.shared().1, receipt),
        }
    }
}

/// What a thread can do in one go to a value whose changes are counted apart from it.
pub enum CountedStep<T> {
    /// It stores a value.
    Store(T),
    /// It counts a change that it has made.
    Count,
}

/// Puts `value` in the place of what is there.
pub fn replace_with<T>(data: &mut T, value: T)
    ensures
        *final(data) == value,
{
    *data = value;
}

impl<T: Clone> WatchableLite<T> {
    /// Creates a new watchable with the given initial value.
    pub fn new(value: T) -> (handle: Self)
        ensures
            handle.began_with(value),
    {
        WatchableLite { data: Arc::new(new_lock(value)), epoch: Arc::new(new_counter()) }
    }

    /// Sets a new value.
    pub fn set(&self, value: T)
        ensures
            exists|receipt: Receipt| #[trigger]
                self.takes(CountedStep::Store(value), receipt) && self.takes(
                    CountedStep::Count,
                    receipt,
                ),
    {
        let (_, receipt) = write_with(&self.data, value, replace_with::<T>);
        count_after(&self.epoch, receipt);
        assert(self.takes(CountedStep::Store(value), receipt));
    }

    /// Returns a clone of the current value.
    pub fn get(&self) -> (value: T)
        ensures
            crate::sync::reads(*self.shared().0, (), clone_of::<T>, value),
            exists|current: T| strictly_cloned(current, value),
        opens_invariants none
    {
        read_with(&self.data, (), clone_of::<T>)
    }

    /// Runs `f` on the current value, and returns what it returned. No writer gets at
    /// the value meanwhile.
    ///
    /// `f` runs while the lock is held, so it must not come back to the same watchable.
    pub fn read<F, R>(&self, f: F) -> (result: R) where F: FnOnce(&T) -> R
        requires
            forall|value: &T| call_requires(f, (value,)),
        ensures
            crate::sync::reads(*self.shared().0, f, run_on::<T, R, F>, result),
            exists|value: &T| call_ensures(f, (value,), result),
        opens_invariants none
    {
        read_with(&self.data, f, run_on::<T, R, F>)
    }

    /// Modifies the value in place.
    ///
    /// `f` runs while the lock is held, so it must not come back to the same watchable.
    pub fn modify<F, R>(&self, f: F) -> (result: R) where F: FnOnce(&mut T) -> R
        requires
            forall|value: &mut T| call_requires(f, (value,)),
        ensures
            exists|receipt: Receipt| #[trigger]
                crate::sync::writes(*self.shared().0, f, run_on_mut::<T, R, F>, result, receipt)
                    && self.takes(CountedStep::Count, receipt),
            exists|value: &mut T| call_ensures(f, (value,), result),
    {
        let (result, receipt) = write_with(&self.data, f, run_on_mut::<T, R, F>);
        count_after(&self.epoch, receipt);
        assert(crate::sync::writes(
            *self.shared().0,
            f,
            run_on_mut::<T, R, F>,
            result,
            receipt,
        ));
        result
    }

    /// Creates a watcher for this value. It reads the epoch first, and the value after that.
    pub fn watch(&self) -> (watcher: DirectLite<T>)
        ensures
            watcher.source() == self.shared(),
            exists|receipt: Glance| #[trigger]
                crate::epoch::shows_count(*self.shared().1, watcher.last_epoch(), receipt)
                    && crate::sync::reads_after(
                    *self.shared().0,
                    (),
                    clone_of::<T>,
                    receipt,
                    watcher.value(),
                ),
            exists|current: T| strictly_cloned(current, watcher.value()),
    {
        let (last_epoch, receipt) = read_count(&self.epoch);
        let cached = read_after(&self.data, (), clone_of::<T>, receipt);
        let watcher = DirectLite {
            data: ReadLink::to(&self.data),
            epoch: CounterLink::to(&self.epoch),
            last_epoch,
            cached,
        };
        assert(watcher.value() == cached);
        assert(crate::epoch::shows_count(*self.shared().1, watcher.last_epoch(), receipt));
        watcher
    }

    /// Returns `true` if there are any active watchers.
    ///
    /// How many there are is up to every thread that has one. The answer goes by a count of
    /// them.
    pub fn has_watchers(&self) -> (watched: bool)
        ensures
            crate::sync::answers_watched(self.shared().1, watched),
        opens_invariants none
    {
        is_watched(&self.epoch)
    }
}

impl<T> Clone for WatchableLite<T> {
    fn clone(&self) -> (copy: Self)
        ensures
            copy.shared() == self.shared(),
    {
        WatchableLite { data: self.data.clone(), epoch: self.epoch.clone() }
    }
}

impl<T: Clone + Default> Default for WatchableLite<T> {
    fn default() -> (handle: Self)
        ensures
            exists|value: T| #[trigger]
                call_ensures(T::default, (), value) && handle.began_with(value),
    {
        Self::new(T::default())
    }
}

/// Direct watcher for [`WatchableLite`].
#[verifier::reject_recursive_types(T)]
pub struct DirectLite<T> {
    data: ReadLink<T>,
    epoch: CounterLink,
    last_epoch: u64,
    cached: T,
}

impl<T> DirectLite<T> {
    /// The weak references by which the watcher looks for its source: one to the value, one to
    /// the epoch.
    pub closed spec fn links(self) -> (WeakRef<RwLock<T>>, WeakRef<Counter>) {
        (self.data.reference(), self.epoch.reference())
    }

    /// What the watcher looks at.
    pub open spec fn source(self) -> (Arc<RwLock<T>>, Arc<Counter>) {
        (self.links().0.target(), self.links().1.target())
    }

    /// `found` is what `Weak::upgrade` gives for the epoch of the source: the epoch itself,
    /// or nothing if the source is gone.
    pub open spec fn finds(self, found: Option<Arc<Counter>>) -> bool {
        self.links().1.gives(found)
    }

    /// The epoch that the watcher has caught up with.
    pub closed spec fn last_epoch(self) -> u64 {
        self.last_epoch
    }

    /// The value that the watcher saw last.
    pub closed spec fn value(self) -> T {
        self.cached
    }
}

impl<T: Clone> Clone for DirectLite<T> {
    fn clone(&self) -> (copy: Self)
        ensures
            copy.links() == self.links(),
            copy.last_epoch() == self.last_epoch(),
            cloned(self.value(), copy.value()),
    {
        DirectLite {
            data: self.data.clone(),
            epoch: self.epoch.clone(),
            last_epoch: self.last_epoch,
            cached: self.cached.clone(),
        }
    }
}

impl<T: Clone> DirectLite<T> {
    /// The watcher looks at what it found of its source, the value and the epoch, and goes from
    /// `pre` to `post`. If it was behind the epoch, it takes a clone of the value that it
    /// finds after that. It stays where it is if the source is gone.
    pub open spec fn looks(
        pre: Self,
        data: Option<Arc<RwLock<T>>>,
        epoch: Option<Arc<Counter>>,
        post: Self,
        changed: bool,
    ) -> bool {
        &&& post.links() == pre.links()
        &&& match (data, epoch) {
            (Some(data), Some(epoch)) => exists|current: u64, receipt: Glance|
                {
                    &&& #[trigger] crate::epoch::shows_count(*epoch, current, receipt)
                    &&& crate::epoch::looks_at_epoch(
                        pre.last_epoch(),
                        Some(current),
                        post.last_epoch(),
                        changed,
                    )
                    &&& if changed {
                        crate::sync::reads_after(*data, (), clone_of::<T>, receipt, post.value())
                    } else {
                        post.value() == pre.value()
                    }
                },
            _ => {
                &&& !changed
                &&& post.last_epoch() == pre.last_epoch()
                &&& post.value() == pre.value()
            },
        }
    }

    /// Looks at what was found of the source. Returns whether there was a change.
    pub fn update_found(
        &mut self,
        data: Option<ReadOnly<T>>,
        epoch: Option<Gauge>,
    ) -> (changed: bool)
        ensures
            Self::looks(
                *old(self),
                ReadOnly::lock_of(data),
                Gauge::counter_of(epoch),
                *final(self),
                changed,
            ),
    {
        let ghost found = (ReadOnly::lock_of(data), Gauge::counter_of(epoch));
        match (data, epoch) {
            (Some(data), Some(epoch)) => {
                let (current, receipt) = epoch.read();
                let changed = advance(&mut self.last_epoch, current);
                if changed {
                    self.cached = data.read_after((), clone_of::<T>, receipt);
                }
                assert(self.value() == self.cached);
                assert(found.1 == Some(epoch.counter()));
                assert(crate::epoch::shows_count(*found.1->0, current, receipt));
                changed
            },
            _ => false,
        }
    }
}

impl<T: Clone> Watcher for DirectLite<T> {
    type Value = T;

    open spec fn cached(&self) -> T {
        self.value()
    }

    open spec fn updates(pre: Self, post: Self, changed: bool) -> bool {
        exists|data: Option<Arc<RwLock<T>>>, epoch: Option<Arc<Counter>>|
            #[trigger] pre.links().0.gives(data) && #[trigger] pre.finds(epoch) && Self::looks(
                pre,
                data,
                epoch,
                post,
                changed,
            )
    }

    open spec fn polls(pre: Self, post: Self, task: Set<Waker>, outcome: Progress) -> bool {
        exists|found: Option<Arc<Counter>>| #[trigger]
            pre.finds(found) && match found {
                Some(_) => !(outcome is Gone) && Self::updates(pre, post, outcome is Changed),
                None => outcome is Gone && post == pre,
            }
    }

    open spec fn answers_connected(&self, answer: bool) -> bool {
        exists|found: Option<Arc<Counter>>| #[trigger]
            self.finds(found) && answer == found is Some
    }

    open spec fn answers_changed(&self, answer: bool) -> bool {
        crate::lite::answers_moved(self.links().1, self.last_epoch(), answer)
    }

    open spec fn changes_left(&self) -> nat {
        (u64::MAX - self.last_epoch()) as nat
    }

    open spec fn has_unreported(&self) -> bool {
        false
    }

    proof fn law_update(pre: Self, post: Self, changed: bool) {
    }

    proof fn law_poll(pre: Self, post: Self, task: Set<Waker>, outcome: Progress) {
    }

    fn update(&mut self) -> (changed: bool) {
        let data = self.data.find();
        let epoch = self.epoch.find();
        let ghost (found_data, found_epoch) = (
            ReadOnly::lock_of(data),
            Gauge::counter_of(epoch),
        );
        assert(old(self).links().0.gives(found_data) && old(self).finds(found_epoch));
        self.update_found(data, epoch)
    }

    fn peek(&self) -> (value: &T) {
        &self.cached
    }

    fn is_connected(&self) -> (connected: bool) {
        let found = self.epoch.find();
        assert(self.finds(Gauge::counter_of(found)));
        found.is_some()
    }

    fn has_changed(&self) -> (changed: bool) {
        assert(self.last_epoch() == self.last_epoch);
        epoch_has_moved(&self.epoch, self.last_epoch)
    }

    /// This variant doesn't support async waiting: nobody wakes a task that polls it.
    fn poll_updated(&mut self, _cx: &mut Context<'_>) -> (outcome: Poll<Result<(), Disconnected>>) {
        if !self.is_connected() {
            return Poll::Ready(Err(Disconnected));
        }
        if self.update() {
            Poll::Ready(Ok(()))
        } else {
            Poll::Pending
        }
    }
}

/// A watcher that had caught up with `last` is asked whether a change is pending, and answers by
/// what it finds of the epoch: `Weak::upgrade` gives it or not, and it is greater or not.
pub open spec fn answers_moved(link: WeakRef<Counter>, last: u64, answer: bool) -> bool {
    exists|found: Option<Arc<Counter>>| #[trigger]
        link.gives(found) && match found {
            Some(epoch) => exists|current: u64, receipt: Glance| #[trigger]
                crate::epoch::shows_count(*epoch, current, receipt) && answer == (current > last),
            None => !answer,
        }
}

/// Whether the epoch behind `link`, if it is still there, is greater than `last`.
pub(crate) fn epoch_has_moved(link: &CounterLink, last: u64) -> (moved: bool)
    ensures
        answers_moved(link.reference(), last, moved),
{
    let found = link.find();
    let ghost source = Gauge::counter_of(found);
    assert(link.reference().gives(source));
    match found {
        Some(epoch) => {
            let (current, receipt) = epoch.read();
            assert(source == Some(epoch.counter()));
            assert(crate::epoch::shows_count(*source->0, current, receipt));
            current > last
        },
        None => false,
    }
}

} // verus!
