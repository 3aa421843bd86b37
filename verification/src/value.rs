//! The general-purpose watchable.
use std::sync::Arc;
use std::task::{Context, Poll, Waker};

use vstd::pervasive::strictly_cloned;
use vstd::prelude::*;

use crate::error::Disconnected;
use crate::shared::{SharedLink, WatchableShared};
use crate::state::WatchableState;
use crate::sync::{farewell, is_watched, take_tasks, Farewell, WeakRef};
use crate::watcher::{Progress, Watcher};

verus! {

/// A wrapper around a value that notifies watchers when modified.
///
/// This is the general-purpose variant with full async support. Its clones are
/// handles to one and the same value.
#[derive(Debug)]
#[verifier::reject_recursive_types(T)]
pub struct Watchable<T> {
    shared: Arc<WatchableShared<T>>,
    farewell: Farewell,
}

impl<T> Watchable<T> {
    /// What the handle shares with its clones and its watchers.
    pub closed spec fn shared(self) -> Arc<WatchableShared<T>> {
        self.shared
    }
}

impl<T: Clone> Watchable<T> {
    /// Creates a new watchable with the given initial value.
    pub fn new(value: T) -> (handle: Self)
        ensures
            handle.shared().began_as(WatchableState::initial(value)),
            handle.shared().began_unwatched(),
    {
        Watchable { shared: Arc::new(WatchableShared::new(value)), farewell: farewell() }
    }

    /// Sets a new value and notifies all watchers.
    pub fn set(&self, value: T)
        ensures
            self.shared().sets(value),
        opens_invariants [
            crate::sync::write_step(self.shared().state_lock(), value, WatchableState::<T>::set),
            self.shared().task_list().step(take_tasks),
        ]
    {
        self.shared.set(value)
    }

    /// Sets a new value only if it differs from the current value.
    /// Returns `Ok(old_value)` if changed, `Err(value)` if unchanged.
    pub fn set_if_changed(&self, value: T) -> (result: Result<T, T>) where T: PartialEq
        ensures
            self.shared().sets_if_changed(value, result),
            exists|current: T| #[trigger]
                crate::state::eq_answers(current, value, result is Err) && match result {
                    Ok(replaced) => replaced == current,
                    Err(refused) => refused == value,
                },
        opens_invariants [
            crate::sync::write_step(
                self.shared().state_lock(),
                value,
                WatchableState::<T>::set_if_changed,
            ),
            self.shared().task_list().step(take_tasks),
        ]
    {
        self.shared.set_if_changed(value)
    }

    /// Modifies the value in place and notifies watchers.
    ///
    /// `f` runs while the lock is held, so it must not come back to the same watchable.
    pub fn modify<F, R>(&self, f: F) -> (result: R) where F: FnOnce(&mut T) -> R
        requires
            forall|value: &mut T| call_requires(f, (value,)),
        ensures
            self.shared().modifies(f, result),
            exists|value: &mut T| call_ensures(f, (value,), result),
        opens_invariants [
            crate::sync::write_step(
                self.shared().state_lock(),
                f,
                WatchableState::<T>::modify::<F, R>,
            ),
            self.shared().task_list().step(take_tasks),
        ]
    {
        self.shared.modify(f)
    }

    /// Returns a clone of the current value.
    pub fn get(&self) -> (value: T)
        ensures
            self.shared().clones_value(value),
            exists|current: T| strictly_cloned(current, value),
        opens_invariants none
    {
        self.shared.get()
    }

    /// Runs `f` on the current value, and returns what it returned. No writer gets at
    /// the value meanwhile.
    ///
    /// `f` runs while the lock is held, so it must not come back to the same watchable.
    pub fn read<F, R>(&self, f: F) -> (result: R) where F: FnOnce(&T) -> R
        requires
            forall|value: &T| call_requires(f, (value,)),
        ensures
            crate::sync::reads(
                self.shared().state_lock(),
                f,
                WatchableState::<T>::read::<F, R>,
                result,
            ),
            exists|value: &T| call_ensures(f, (value,), result),
        opens_invariants none
    {
        self.shared.read(f)
    }

    /// Creates a watcher for this value.
    pub fn watch(&self) -> (watcher: Direct<T>)
        ensures
            watcher.source() == self.shared(),
            self.shared().clones_state(watcher.seen()),
            exists|current: WatchableState<T>| current.copies(watcher.seen()),
        opens_invariants none
    {
        let state = self.shared.snapshot();
        let watcher = Direct { shared: SharedLink::to(&self.shared), state };
        assert(watcher.seen() == state);
        watcher
    }

    /// Returns `true` if there are any active watchers.
    ///
    /// How many there are is up to every thread that has one. The answer goes by a count of
    /// them.
    pub fn has_watchers(&self) -> (watched: bool)
        ensures
            crate::sync::answers_watched(self.shared(), watched),
        opens_invariants none
    {
        is_watched(&self.shared)
    }
}

impl<T> Clone for Watchable<T> {
    fn clone(&self) -> (copy: Self)
        ensures
            copy.shared() == self.shared(),
    {
        Watchable { shared: self.shared.clone(), farewell: farewell() }
    }
}

impl<T: Clone + Default> Default for Watchable<T> {
    fn default() -> (handle: Self)
        ensures
            exists|value: T| #[trigger]
                call_ensures(T::default, (), value) && handle.shared().began_as(
                    WatchableState::initial(value),
                ),
            handle.shared().began_unwatched(),
    {
        Self::new(T::default())
    }
}

impl<T> Drop for Watchable<T> {
    /// Wakes all watchers so they can detect disconnection.
    fn drop(&mut self)
        ensures
            old(self).shared().tries_to_wake(),
        opens_invariants none
        no_unwind
    {
        self.shared.wake_all_if_free(&mut self.farewell);
    }
}

/// Direct watcher for a [`Watchable`].
#[verifier::reject_recursive_types(T)]
pub struct Direct<T> {
    shared: SharedLink<T>,
    state: WatchableState<T>,
}

impl<T> Direct<T> {
    /// The weak reference by which the watcher looks for its source.
    pub closed spec fn link(self) -> WeakRef<WatchableShared<T>> {
        self.shared.reference()
    }

    /// What the watcher looks at.
    pub open spec fn source(self) -> Arc<WatchableShared<T>> {
        self.link().target()
    }

    /// `found` is what `Weak::upgrade` gives for the source: the source itself, or nothing if
    /// it is gone.
    pub open spec fn finds(self, found: Option<Arc<WatchableShared<T>>>) -> bool {
        self.link().gives(found)
    }

    /// What the watcher saw last.
    pub closed spec fn seen(self) -> WatchableState<T> {
        self.state
    }
}

impl<T: Clone> Clone for Direct<T> {
    fn clone(&self) -> (copy: Self)
        ensures
            copy.link() == self.link(),
            self.seen().copies(copy.seen()),
    {
        Direct { shared: self.shared.clone(), state: self.state.clone() }
    }
}

impl<T: Clone> Watcher for Direct<T> {
    type Value = T;

    open spec fn cached(&self) -> T {
        self.seen().value
    }

    open spec fn updates(pre: Self, post: Self, changed: bool) -> bool {
        &&& post.link() == pre.link()
        &&& crate::shared::updates_seen(pre.link(), pre.seen(), post.seen(), changed)
    }

    open spec fn polls(pre: Self, post: Self, task: Set<Waker>, outcome: Progress) -> bool {
        &&& post.link() == pre.link()
        &&& crate::shared::polls_seen(pre.link(), pre.seen(), post.seen(), task, outcome)
    }

    open spec fn answers_connected(&self, answer: bool) -> bool {
        exists|found: Option<Arc<WatchableShared<T>>>| #[trigger]
            self.finds(found) && answer == found is Some
    }

    open spec fn answers_changed(&self, answer: bool) -> bool {
        crate::shared::answers_behind(self.link(), self.seen(), answer)
    }

    open spec fn changes_left(&self) -> nat {
        (u64::MAX - self.seen().epoch) as nat
    }

    open spec fn has_unreported(&self) -> bool {
        false
    }

    proof fn law_update(pre: Self, post: Self, changed: bool) {
        crate::shared::law_update_is_a_look(pre.link(), pre.seen(), post.seen(), changed);
    }

    proof fn law_poll(pre: Self, post: Self, task: Set<Waker>, outcome: Progress) {
        crate::shared::law_poll_is_a_look(pre.link(), pre.seen(), post.seen(), task, outcome);
    }

    fn update(&mut self) -> (changed: bool) {
        self.shared.update(&mut self.state)
    }

    fn peek(&self) -> (value: &T) {
        &self.state.value
    }

    fn is_connected(&self) -> (connected: bool) {
        let connected = self.shared.is_connected();
        let ghost found = choose|found: Option<Arc<WatchableShared<T>>>| #[trigger]
            self.shared.reference().gives(found) && connected == found is Some;
        assert(self.finds(found));
        connected
    }

    fn has_changed(&self) -> (changed: bool) {
        let changed = self.shared.is_behind(&self.state);
        assert(self.seen() == self.state);
        changed
    }

    fn poll_updated(&mut self, cx: &mut Context<'_>) -> (outcome: Poll<Result<(), Disconnected>>) {
        self.shared.poll(&mut self.state, cx)
    }
}

} // verus!
