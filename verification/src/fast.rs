//! The watchable for writers that contend.
use std::sync::Arc;
use std::task::{Context, Poll, Waker};

use vstd::pervasive::strictly_cloned;
use vstd::prelude::*;

use crate::error::Disconnected;
use crate::shared::{SharedLink, WatchableShared};
use crate::state::WatchableState;
use crate::sync::{is_watched, take_tasks, WeakRef};
use crate::watcher::{Progress, Watcher};

verus! {

/// Watchable optimized for high-contention concurrent writes.
///
/// Uses a single lock for value and epoch. Its clones are handles to one and the
/// same value. Dropping a handle wakes nobody.
#[derive(Debug)]
#[verifier::reject_recursive_types(T)]
pub struct WatchableFast<T> {
    shared: Arc<WatchableShared<T>>,
}

impl<T> WatchableFast<T> {
    /// What the handle shares with its clones and its watchers.
    pub closed spec fn shared(self) -> Arc<WatchableShared<T>> {
        self.shared
    }
}

impl<T: Clone> WatchableFast<T> {
    /// Creates a new watchable with the given initial value.
    pub fn new(value: T) -> (handle: Self)
        ensures
            handle.shared().began_as(WatchableState::initial(value)),
            handle.shared().began_unwatched(),
    {
        WatchableFast { shared: Arc::new(WatchableShared::new(value)) }
    }

    /// Sets a new value and notifies all watchers.
    pub fn set(&self, value: T)
        ensures
            self.shared().sets(value),
        opens_invariants [
            crate::sync::write_step(self.shared().state_lock(), value, WatchableState::<T>::set),
            self.shared().task_list().step(take_tasks),
        ]
    {
        self.shared.set(value)
    }

    /// Sets a new value only if it differs from the current value. Returns whether it
    /// did.
    pub fn set_if_changed(&self, value: T) -> (changed: bool) where T: PartialEq
        ensures
            exists|result: Result<T, T>| #[trigger]
                self.shared().sets_if_changed(value, result) && changed == result is Ok,
            exists|current: T, same: bool| #[trigger]
                crate::state::eq_answers(current, value, same) && changed == !same,
        opens_invariants [
            crate::sync::write_step(
                self.shared().state_lock(),
                value,
                WatchableState::<T>::set_if_changed,
            ),
            self.shared().task_list().step(take_tasks),
        ]
    {
        let result = self.shared.set_if_changed(value);
        assert(self.shared().sets_if_changed(value, result));
        match result {
            Ok(_) => true,
            Err(_) => false,
        }
    }

    /// Modifies the value in place and notifies watchers.
    ///
    /// `f` runs while the lock is held, so it must not come back to the same watchable.
    pub fn modify<F, R>(&self, f: F) -> (result: R) where F: FnOnce(&mut T) -> R
        requires
            forall|value: &mut T| call_requires(f, (value,)),
        ensures
            self.shared().modifies(f, result),
            exists|value: &mut T| call_ensures(f, (value,), result),
        opens_invariants [
            crate::sync::write_step(
                self.shared().state_lock(),
                f,
                WatchableState::<T>::modify::<F, R>,
            ),
            self.shared().task_list().step(take_tasks),
        ]
    {
        self.shared.modify(f)
    }

    /// Returns a clone of the current value.
    pub fn get(&self) -> (value: T)
        ensures
            self.shared().clones_value(value),
            exists|current: T| strictly_cloned(current, value),
        opens_invariants none
    {
        self.shared.get()
    }

    /// Runs `f` on the current value, and returns what it returned. No writer gets at
    /// the value meanwhile.
    ///
    /// `f` runs while the lock is held, so it must not come back to the same watchable.
    pub fn read<F, R>(&self, f: F) -> (result: R) where F: FnOnce(&T) -> R
        requires
            forall|value: &T| call_requires(f, (value,)),
        ensures
            crate::sync::reads(
                self.shared().state_lock(),
                f,
                WatchableState::<T>::read::<F, R>,
                result,
            ),
            exists|value: &T| call_ensures(f, (value,), result),
        opens_invariants none
    {
        self.shared.read(f)
    }

    /// Creates a watcher for this value.
    pub fn watch(&self) -> (watcher: DirectFast<T>)
        ensures
            watcher.source() == self.shared(),
            self.shared().clones_state(watcher.seen()),
            exists|current: WatchableState<T>| current.copies(watcher.seen()),
        opens_invariants none
    {
        let state = self.shared.snapshot();
        let watcher = DirectFast { shared: SharedLink::to(&self.shared), state };
        assert(watcher.seen() == state);
        watcher
    }

    /// Returns `true` if there are any active watchers.
    ///
    /// How many there are is up to every thread that has one. The answer goes by a count of
    /// them.
    pub fn has_watchers(&self) -> (watched: bool)
        ensures
            crate::sync::answers_watched(self.shared(), watched),
        opens_invariants none
    {
        is_watched(&self.shared)
    }
}

impl<T> Clone for WatchableFast<T> {
    fn clone(&self) -> (copy: Self)
        ensures
            copy.shared() == self.shared(),
    {
        WatchableFast { shared: self.shared.clone() }
    }
}

impl<T: Clone + Default> Default for WatchableFast<T> {
    fn default() -> (handle: Self)
        ensures
            exists|value: T| #[trigger]
                call_ensures(T::default, (), value) && handle.shared().began_as(
                    WatchableState::initial(value),
                ),
            handle.shared().began_unwatched(),
    {
        Self::new(T::default())
    }
}

/// Direct watcher for [`WatchableFast`].
#[verifier::reject_recursive_types(T)]
pub struct DirectFast<T> {
    shared: SharedLink<T>,
    state: WatchableState<T>,
}

impl<T> DirectFast<T> {
    /// The weak reference by which the watcher looks for its source.
    pub closed spec fn link(self) -> WeakRef<WatchableShared<T>> {
        self.shared.reference()
    }

    /// What the watcher looks at.
    pub open spec fn source(self) -> Arc<WatchableShared<T>> {
        self.link().target()
    }

    /// `found` is what `Weak::upgrade` gives for the source: the source itself, or nothing if
    /// it is gone.
    pub open spec fn finds(self, found: Option<Arc<WatchableShared<T>>>) -> bool {
        self.link().gives(found)
    }

    /// What the watcher saw last.
    pub closed spec fn seen(self) -> WatchableState<T> {
        self.state
    }
}

impl<T: Clone> Clone for DirectFast<T> {
    fn clone(&self) -> (copy: Self)
        ensures
            copy.link() == self.link(),
            self.seen().copies(copy.seen()),
    {
        DirectFast { shared: self.shared.clone(), state: self.state.clone() }
    }
}

impl<T: Clone> Watcher for DirectFast<T> {
    type Value = T;

    open spec fn cached(&self) -> T {
        self.seen().value
    }

    open spec fn updates(pre: Self, post: Self, changed: bool) -> bool {
        &&& post.link() == pre.link()
        &&& crate::shared::updates_seen(pre.link(), pre.seen(), post.seen(), changed)
    }

    open spec fn polls(pre: Self, post: Self, task: Set<Waker>, outcome: Progress) -> bool {
        &&& post.link() == pre.link()
        &&& crate::shared::polls_seen(pre.link(), pre.seen(), post.seen(), task, outcome)
    }

    open spec fn answers_connected(&self, answer: bool) -> bool {
        exists|found: Option<Arc<WatchableShared<T>>>| #[trigger]
            self.finds(found) && answer == found is Some
    }

    open spec fn answers_changed(&self, answer: bool) -> bool {
        crate::shared::answers_behind(self.link(), self.seen(), answer)
    }

    open spec fn changes_left(&self) -> nat {
        (u64::MAX - self.seen().epoch) as nat
    }

    open spec fn has_unreported(&self) -> bool {
        false
    }

    proof fn law_update(pre: Self, post: Self, changed: bool) {
        crate::shared::law_update_is_a_look(pre.link(), pre.seen(), post.seen(), changed);
    }

    proof fn law_poll(pre: Self, post: Self, task: Set<Waker>, outcome: Progress) {
        crate::shared::law_poll_is_a_look(pre.link(), pre.seen(), post.seen(), task, outcome);
    }

    fn update(&mut self) -> (changed: bool) {
        self.shared.update(&mut self.state)
    }

    fn peek(&self) -> (value: &T) {
        &self.state.value
    }

    fn is_connected(&self) -> (connected: bool) {
        let connected = self.shared.is_connected();
        let ghost found = choose|found: Option<Arc<WatchableShared<T>>>| #[trigger]
            self.shared.reference().gives(found) && connected == found is Some;
        assert(self.finds(found));
        connected
    }

    fn has_changed(&self) -> (changed: bool) {
        let changed = self.shared.is_behind(&self.state);
        assert(self.seen() == self.state);
        changed
    }

    fn poll_updated(&mut self, cx: &mut Context<'_>) -> (outcome: Poll<Result<(), Disconnected>>) {
        self.shared.poll(&mut self.state, cx)
    }
}

} // verus!
